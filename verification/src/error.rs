//! The one error type that the service's operations end in.

use crate::cloud::{CloudError, Server};
use crate::config::ConfigError;
use crate::dns::DynDnsError;
use crate::schedule::ScheduleError;
use crate::ssh::SshError;
use vstd::prelude::*;
use vstd::string::*;

verus! {

/// Every failure that a tick or a one-shot command can meet. None of them
/// ends the controller; a tick that meets one reports it and ends.
#[derive(Debug, Clone, PartialEq, Eq)]
pub enum Error {
    Cloud(CloudError),
    Config(ConfigError),
    Ssh(SshError),
    /// A setup command ended with a non-zero exit code; the text is what it
    /// printed.
    SetupError(String),
    DynDns(DynDnsError),
    /// An instance was found where none was expected. Not a failure: the
    /// controller may adopt the instance.
    AlreadyRunning(Server),
    Schedule(ScheduleError),
    /// The occupancy query failed; the text describes how.
    Rcon(String),
}

impl Error {
    /// The text that describes the failure.
    pub open spec fn spec_message(&self) -> Seq<char> {
        match self {
            Error::Cloud(e) => "Error while interacting with cloud provider: "@ + e.spec_message(),
            Error::Config(e) => "Error while loading configuration: "@ + e.spec_message(),
            Error::Ssh(e) => "Error while trying to connect trough ssh: "@ + e.spec_message(),
            Error::SetupError(output) => "Setup command returned an error: "@ + output@,
            Error::DynDns(e) => "Error while updating dyndns: "@ + e.spec_message(),
            Error::AlreadyRunning(_) => "Already running"@,
            Error::Schedule(e) => e.spec_message(),
            Error::Rcon(why) => why@,
        }
    }

    /// The text that describes the failure.
    pub fn message(&self) -> (r: String)
        ensures
            r@ == self.spec_message(),
    {
        match self {
            Error::Cloud(e) => {
                let mut text = String::from_str("Error while interacting with cloud provider: ");
                text.append(e.message().as_str());
                text
            },
            Error::Config(e) => {
                let mut text = String::from_str("Error while loading configuration: ");
                text.append(e.message().as_str());
                text
            },
            Error::Ssh(e) => {
                let mut text = String::from_str("Error while trying to connect trough ssh: ");
                text.append(e.message().as_str());
                text
            },
            Error::SetupError(output) => {
                let mut text = String::from_str("Setup command returned an error: ");
                text.append(output.as_str());
                text
            },
            Error::DynDns(e) => {
                let mut text = String::from_str("Error while updating dyndns: ");
                text.append(e.message().as_str());
                text
            },
            Error::AlreadyRunning(_) => String::from_str("Already running"),
            Error::Schedule(e) => e.message(),
            Error::Rcon(why) => why.clone(),
        }
    }
}

} // verus!
