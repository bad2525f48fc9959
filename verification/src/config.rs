//! The configuration of the service, as plain values, and the rules by which
//! it is completed: the defaults of fields left out, the choice of the
//! provider, and secrets that are given as the path of a file.

use crate::cloud::digitalocean::DigitalOcean;
use crate::cloud::vultr::Vultr;
use crate::text::{spec_trim, trim};
use vstd::prelude::*;
use vstd::string::*;

verus! {

/// A configuration file that is not the TOML document expected; the text
/// says what is wrong with it.
#[derive(Debug, Clone, PartialEq, Eq)]
pub struct TomlError(pub String);

/// Why no usable configuration could be had.
#[derive(Debug, Clone, PartialEq, Eq)]
pub enum ConfigError {
    /// The file at this path could not be read.
    Open(String),
    Toml(TomlError),
    NoProvider,
    MultipleProviders,
}

/// The whole configuration.
#[derive(Debug, Clone, PartialEq, Eq)]
pub struct Config {
    pub vultr: Option<VultrConfig>,
    pub digital_ocean: Option<DigitalOceanConfig>,
    pub server: ServerConfig,
    pub dyndns: Option<DynDnsConfig>,
    pub schedule: ScheduleConfig,
}

/// What the game server is started with.
#[derive(Debug, Clone, PartialEq, Eq)]
pub struct ServerConfig {
    /// The secret of the occupancy query.
    pub rcon: String,
    /// The password that players connect with.
    pub password: String,
    /// The container image of the game server.
    pub image: String,
    pub demostf_key: Option<String>,
    pub logstf_key: Option<String>,
    pub config_league: String,
    pub config_mode: String,
    pub name: String,
    pub tv_name: String,
    /// Extra settings, handed to the game server as they are.
    pub extra_cfg: String,
    /// The public keys that may log in to the instance.
    pub ssh_keys: Vec<String>,
    /// Whether an instance that is found running is taken over.
    pub manage_existing: bool,
}

/// The account on Vultr.
#[derive(Debug, Clone, PartialEq, Eq)]
pub struct VultrConfig {
    pub api_key: String,
    pub region: String,
    pub plan: String,
}

/// The account on DigitalOcean.
#[derive(Debug, Clone, PartialEq, Eq)]
pub struct DigitalOceanConfig {
    pub api_key: String,
    pub region: String,
    pub plan: String,
}

/// The host name that is kept pointing at the instance, and the account at
/// the service that keeps it.
#[derive(Debug, Clone, PartialEq, Eq)]
pub struct DynDnsConfig {
    pub update_url: String,
    pub hostname: String,
    pub username: String,
    pub password: String,
}

/// When the instance runs.
#[derive(Debug, Clone, PartialEq, Eq)]
pub struct ScheduleConfig {
    /// The cron expression of the start boundaries.
    pub start: String,
    /// The cron expression of the stop boundaries.
    pub stop: String,
    /// Seconds that a stop waits for the instance to empty.
    pub stop_grace_time: u64,
}

/// The provider that a configuration selects.
#[derive(Debug, Clone, PartialEq, Eq)]
pub enum Provider {
    Vultr(Vultr),
    DigitalOcean(DigitalOcean),
}

/// The container image that is run unless another is configured.
pub fn server_default_image() -> (r: String)
    ensures
        r@ == "spiretf/docker-spire-server"@,
{
    String::from_str("spiretf/docker-spire-server")
}

/// The name of the game server unless another is configured.
pub fn server_default_name() -> (r: String)
    ensures
        r@ == "Spire"@,
{
    String::from_str("Spire")
}

/// The name of the spectator channel unless another is configured.
pub fn server_default_tv_name() -> (r: String)
    ensures
        r@ == "SpireTV"@,
{
    String::from_str("SpireTV")
}

/// The league whose settings are loaded unless another is configured.
pub fn server_default_league() -> (r: String)
    ensures
        r@ == "etf2l"@,
{
    String::from_str("etf2l")
}

/// The game mode unless another is configured.
pub fn server_default_mode() -> (r: String)
    ensures
        r@ == "6v6"@,
{
    String::from_str("6v6")
}

/// The size of an instance on Vultr unless another is configured.
pub fn vultr_default_plan() -> (r: String)
    ensures
        r@ == "vc2-1c-2gb"@,
{
    String::from_str("vc2-1c-2gb")
}

/// The size of an instance on DigitalOcean unless another is configured.
pub fn digital_ocean_default_plan() -> (r: String)
    ensures
        r@ == "s-2vcpu-2gb"@,
{
    String::from_str("s-2vcpu-2gb")
}

/// What was found at the path that a secret names.
#[derive(Debug, Clone, PartialEq, Eq)]
pub enum SecretFile {
    /// Nothing is there.
    Missing,
    /// A file with this content.
    Content(String),
    /// Something that could not be read; the text says why.
    Unreadable(String),
}

/// Whether a configured secret may be the path of the file that holds it:
/// whether it starts with `/`.
pub open spec fn spec_names_file(raw: Seq<char>) -> bool {
    raw.len() > 0 && raw[0] == '/'
}

/// Whether a configured secret may be the path of the file that holds it.
pub fn names_file(raw: &str) -> (r: bool)
    ensures
        r == spec_names_file(raw@),
{
    raw.unicode_len() > 0 && raw.get_char(0) == '/'
}

/// The secret that a configured value stands for, given what was found at
/// the path that the value may name.
///
/// A value that starts with `/` and names a file stands for the content of
/// that file, without the white space around it; if the file cannot be
/// read, there is no secret. Every other value is the secret itself.
pub fn load_secret(raw: String, file: SecretFile) -> (r: Result<String, String>)
    ensures
        match file {
            SecretFile::Content(content) => if spec_names_file(raw@) {
                r matches Ok(secret) && secret@ == spec_trim(content@)
            } else {
                r == Ok::<String, String>(raw)
            },
            SecretFile::Unreadable(why) => if spec_names_file(raw@) {
                r == Err::<String, String>(why)
            } else {
                r == Ok::<String, String>(raw)
            },
            SecretFile::Missing => r == Ok::<String, String>(raw),
        },
{
    if !names_file(raw.as_str()) {
        return Ok(raw);
    }
    match file {
        SecretFile::Content(content) => Ok(trim(content.as_str())),
        SecretFile::Unreadable(why) => Err(why),
        SecretFile::Missing => Ok(raw),
    }
}

impl Config {
    /// The provider that this configuration selects.
    pub open spec fn spec_cloud(&self) -> Result<Provider, ConfigError> {
        match (self.vultr, self.digital_ocean) {
            (Some(_), Some(_)) => Err(ConfigError::NoProvider),
            (Some(vultr), None) => Ok(
                Provider::Vultr(
                    Vultr { region: vultr.region, plan: vultr.plan, token: vultr.api_key },
                ),
            ),
            (None, Some(digital_ocean)) => Ok(
                Provider::DigitalOcean(
                    DigitalOcean {
                        region: digital_ocean.region,
                        plan: digital_ocean.plan,
                        token: digital_ocean.api_key,
                    },
                ),
            ),
            (None, None) => Err(ConfigError::NoProvider),
        }
    }

    /// Selects the provider: the one that is configured. A configuration
    /// that names no provider, or both, selects none and is refused with
    /// `NoProvider`.
    pub fn cloud(&self) -> (r: Result<Provider, ConfigError>)
        ensures
            r == self.spec_cloud(),
    {
        if self.vultr.is_some() && self.digital_ocean.is_some() {
            Err(ConfigError::NoProvider)
        } else if let Some(vultr) = &self.vultr {
            Ok(
                Provider::Vultr(
                    Vultr::new(vultr.api_key.clone(), vultr.region.clone(), vultr.plan.clone()),
                ),
            )
        } else if let Some(digital_ocean) = &self.digital_ocean {
            Ok(
                Provider::DigitalOcean(
                    DigitalOcean::new(
                        digital_ocean.api_key.clone(),
                        digital_ocean.region.clone(),
                        digital_ocean.plan.clone(),
                    ),
                ),
            )
        } else {
            Err(ConfigError::NoProvider)
        }
    }
}

impl ConfigError {
    /// The text that describes the failure.
    pub open spec fn spec_message(&self) -> Seq<char> {
        match self {
            ConfigError::Open(path) => "Failed to open \""@ + path@ + "\""@,
            ConfigError::Toml(e) => "Malformed toml: "@ + e.0@,
            ConfigError::NoProvider => "No cloud provider configured"@,
            ConfigError::MultipleProviders => "Multiple cloud providers configured"@,
        }
    }

    /// The text that describes the failure.
    pub fn message(&self) -> (r: String)
        ensures
            r@ == self.spec_message(),
    {
        match self {
            ConfigError::Open(path) => {
                let mut text = String::from_str("Failed to open \"");
                text.append(path.as_str());
                text.append("\"");
                text
            },
            ConfigError::Toml(e) => {
                let mut text = String::from_str("Malformed toml: ");
                text.append(e.0.as_str());
                text
            },
            ConfigError::NoProvider => String::from_str("No cloud provider configured"),
            ConfigError::MultipleProviders => String::from_str(
                "Multiple cloud providers configured",
            ),
        }
    }
}

} // verus!
