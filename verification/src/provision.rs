//! The provisioning pipeline: from an empty account to a running game
//! server, one request after the other.
//!
//! The pipeline does no I/O. A step returns the request to make; the caller
//! makes it and hands the answer back. An instance that was created is never
//! destroyed by the pipeline, whatever fails after that.

use crate::cloud::{CloudError, Created, CreatedAuth, IpAddress, Server};
use crate::config::{Config, DynDnsConfig};
use crate::dns::{DynDnsClient, UpdateRequest};
use crate::error::Error;
use crate::setup::{
    command, spec_advance, spec_command, spec_name, Setup, SetupAction, SetupStep, SetupVerdict,
    BOOT_WAIT_SECS, PULL_DELAY_SECS,
};
use crate::ssh::{spec_utf8_lossy, CommandResult, SshError};
use vstd::prelude::*;

verus! {

/// Where the pipeline stands.
#[derive(Debug, PartialEq, Eq)]
pub enum StartPipeline {
    /// The instances of the service are being listed.
    Listing,
    /// The instance is being created.
    Spawning,
    /// The instance is waited for to get its address.
    WaitingForIp { created: Created },
    /// The session is being opened.
    Connecting { server: Server },
    /// The setup sequence is running.
    SettingUp { server: Server, setup: Setup },
    /// The session is being closed.
    Closing { server: Server },
    Finished,
}

/// The answer to a request of the pipeline.
#[derive(Debug, PartialEq, Eq)]
pub enum StartEvent {
    Listed(Result<Vec<Server>, CloudError>),
    Spawned(Result<Created, CloudError>),
    IpReady(Result<Server, CloudError>),
    /// The session was opened, or was given up.
    Connected(Result<(), Error>),
    /// A setup command has ended.
    CommandEnded(Result<CommandResult, SshError>),
    /// The session was closed and the close was acknowledged, or not.
    Closed(Result<(), SshError>),
}

/// Where players connect to.
#[derive(Debug, Clone, PartialEq, Eq)]
pub enum ConnectHost {
    /// The host name that is kept pointing at the instance.
    Name(String),
    /// The address of the instance itself.
    Address(IpAddress),
}

/// What follows a game server that is set up and starting: what the operator
/// is told, and the address that is to be published.
#[derive(Debug, Clone, PartialEq, Eq)]
pub struct Started {
    pub server: Server,
    pub host: ConnectHost,
    /// The password that players connect with.
    pub password: String,
    /// The update that points the host name at the instance, if a host name
    /// is kept. It is sent now and not earlier: a run that fails leaves the
    /// host name where it pointed. How the update ends changes nothing.
    pub publish: Option<UpdateRequest>,
}

/// What the pipeline asks its caller to do next.
#[derive(Debug, PartialEq, Eq)]
pub enum StartAction {
    /// List the instances of the service.
    List,
    /// Create an instance that the configured public keys may log in to.
    Spawn,
    /// Wait until the instance has its address.
    WaitForIp { id: String },
    /// Tell the operator that the instance is booting, and what may be shown
    /// of its credential; then open a session.
    Connect { ip: IpAddress, auth: CreatedAuth, credential_note: String },
    /// Wait, run the command, and report how it ended.
    Exec { after_secs: u64, command: String },
    /// Close the session, and wait for the close to be acknowledged.
    Close,
    /// The pipeline has ended.
    Finish(Result<Started, Error>),
    /// The event answers nothing that was asked. Nothing has changed.
    Nothing,
}

/// What is to be done next, before the texts are filled in.
pub enum StartVerdict {
    Spawn,
    WaitForIp { id: String },
    Connect { ip: IpAddress, auth: CreatedAuth },
    /// What the setup sequence asks for.
    Setup(SetupVerdict),
    Close,
    Succeed { server: Server },
    Fail(Error),
    Nothing,
}

/// The stage after `event` has come in, and what is to be done next.
///
/// An instance that is found before one is created ends the pipeline with
/// `AlreadyRunning` and the first instance found. Every failure ends the
/// pipeline with that failure. Only the successful end asks for the address
/// to be published.
pub open spec fn spec_start_step(state: StartPipeline, event: StartEvent) -> (
    StartPipeline,
    StartVerdict,
) {
    match (state, event) {
        (StartPipeline::Listing, StartEvent::Listed(Err(e))) => (
            StartPipeline::Finished,
            StartVerdict::Fail(Error::Cloud(e)),
        ),
        (StartPipeline::Listing, StartEvent::Listed(Ok(servers))) => if servers@.len() > 0 {
            (StartPipeline::Finished, StartVerdict::Fail(Error::AlreadyRunning(servers@[0])))
        } else {
            (StartPipeline::Spawning, StartVerdict::Spawn)
        },
        (StartPipeline::Spawning, StartEvent::Spawned(Err(e))) => (
            StartPipeline::Finished,
            StartVerdict::Fail(Error::Cloud(e)),
        ),
        (StartPipeline::Spawning, StartEvent::Spawned(Ok(created))) => (
            StartPipeline::WaitingForIp { created },
            StartVerdict::WaitForIp { id: created.id },
        ),
        (StartPipeline::WaitingForIp { created }, StartEvent::IpReady(Err(e))) => (
            StartPipeline::Finished,
            StartVerdict::Fail(Error::Cloud(e)),
        ),
        (StartPipeline::WaitingForIp { created }, StartEvent::IpReady(Ok(server))) => (
            StartPipeline::Connecting { server },
            StartVerdict::Connect { ip: server.ip, auth: created.auth },
        ),
        (StartPipeline::Connecting { server }, StartEvent::Connected(Err(e))) => (
            StartPipeline::Finished,
            StartVerdict::Fail(e),
        ),
        (StartPipeline::Connecting { server }, StartEvent::Connected(Ok(_))) => (
            StartPipeline::SettingUp {
                server,
                setup: Setup { step: SetupStep::PullImage, pull_failures: 0 },
            },
            StartVerdict::Setup(
                SetupVerdict::Run {
                    step: SetupStep::PullImage,
                    after_secs: (BOOT_WAIT_SECS + PULL_DELAY_SECS) as u64,
                },
            ),
        ),
        (StartPipeline::SettingUp { server, setup }, StartEvent::CommandEnded(outcome)) => {
            let (next, verdict) = spec_advance(setup, outcome);
            match verdict {
                SetupVerdict::Run { .. } => (
                    StartPipeline::SettingUp { server, setup: next },
                    StartVerdict::Setup(verdict),
                ),
                SetupVerdict::Done => (StartPipeline::Closing { server }, StartVerdict::Close),
                _ => (StartPipeline::Finished, StartVerdict::Setup(verdict)),
            }
        },
        (StartPipeline::Closing { server }, StartEvent::Closed(Err(e))) => (
            StartPipeline::Finished,
            StartVerdict::Fail(Error::Ssh(e)),
        ),
        (StartPipeline::Closing { server }, StartEvent::Closed(Ok(_))) => (
            StartPipeline::Finished,
            StartVerdict::Succeed { server },
        ),
        _ => (state, StartVerdict::Nothing),
    }
}

/// The host name that is kept pointing at the instance, if one is.
pub open spec fn spec_hostname(config: Config) -> Option<Seq<char>> {
    match config.dyndns {
        Some(dns) => Some(dns.hostname@),
        None => None,
    }
}

/// Whether `request` asks the update service of `dns` to point its host
/// name at `ip`.
pub open spec fn spec_is_update(request: UpdateRequest, dns: DynDnsConfig, ip: IpAddress) -> bool {
    &&& request.url == dns.update_url
    &&& request.username == dns.username
    &&& request.password == dns.password
    &&& request.hostname@ == dns.hostname@
    &&& request.ip == ip
}

/// Whether `text` is the command of a setup step, given the configuration.
pub open spec fn spec_is_command(text: Seq<char>, step: SetupStep, config: Config) -> bool {
    text == spec_command(step, config.server, spec_hostname(config))
}

/// Whether `action` is what `verdict` asks for, with the texts filled in.
pub open spec fn spec_carries_out(
    action: StartAction,
    verdict: StartVerdict,
    config: Config,
    event: StartEvent,
) -> bool {
    match verdict {
        StartVerdict::Spawn => action == StartAction::Spawn,
        StartVerdict::WaitForIp { id } => action == (StartAction::WaitForIp { id }),
        StartVerdict::Connect { ip, auth } => {
            &&& action matches StartAction::Connect { ip: to, auth: with, credential_note }
            &&& to == ip
            &&& with == auth
            &&& credential_note@ == auth.spec_describe()
        },
        StartVerdict::Setup(SetupVerdict::Run { step, after_secs }) => {
            &&& action matches StartAction::Exec { after_secs: wait, command }
            &&& wait == after_secs
            &&& spec_is_command(command@, step, config)
        },
        StartVerdict::Setup(SetupVerdict::CommandFailed) => {
            &&& event matches StartEvent::CommandEnded(Ok(result))
            &&& action matches StartAction::Finish(Err(Error::SetupError(text)))
            &&& text@ == spec_utf8_lossy(result.output@)
        },
        StartVerdict::Setup(SetupVerdict::SessionFailed) => {
            &&& event matches StartEvent::CommandEnded(Err(e))
            &&& action == StartAction::Finish(Err(Error::Ssh(e)))
        },
        StartVerdict::Setup(SetupVerdict::Done) => action == StartAction::Close,
        StartVerdict::Close => action == StartAction::Close,
        StartVerdict::Succeed { server } => {
            &&& action matches StartAction::Finish(Ok(started))
            &&& started.server == server
            &&& started.password == config.server.password
            &&& match config.dyndns {
                Some(dns) => {
                    &&& started.host matches ConnectHost::Name(name)
                    &&& name@ == dns.hostname@
                    &&& started.publish matches Some(request)
                    &&& spec_is_update(request, dns, server.ip)
                },
                None => started.host == ConnectHost::Address(server.ip) && started.publish is None,
            }
        },
        StartVerdict::Fail(e) => action == StartAction::Finish(Err(e)),
        StartVerdict::Nothing => action == StartAction::Nothing,
    }
}

/// The request that points the host name of `dns` at `ip`.
pub fn dns_update(dns: &DynDnsConfig, ip: IpAddress) -> (r: UpdateRequest)
    ensures
        spec_is_update(r, *dns, ip),
{
    let client = DynDnsClient::new(
        dns.update_url.clone(),
        dns.username.clone(),
        dns.password.clone(),
    );
    client.request(dns.hostname.as_str(), ip)
}

/// The host name that is kept pointing at the instance, if one is.
fn hostname(config: &Config) -> (r: Option<&str>)
    ensures
        spec_name(r) == spec_hostname(*config),
{
    match &config.dyndns {
        Some(dns) => Some(dns.hostname.as_str()),
        None => None,
    }
}

impl StartPipeline {
    /// The start of the pipeline: the instances of the service are listed.
    pub fn begin() -> (r: (StartPipeline, StartAction))
        ensures
            r.0 == StartPipeline::Listing,
            r.1 == StartAction::List,
    {
        (StartPipeline::Listing, StartAction::List)
    }

    /// Takes in the answer to the last request and says what is to be done
    /// next.
    pub fn step(self, config: &Config, event: StartEvent) -> (r: (StartPipeline, StartAction))
        ensures
            r.0 == spec_start_step(self, event).0,
            spec_carries_out(r.1, spec_start_step(self, event).1, *config, event),
    {
        match (self, event) {
            (StartPipeline::Listing, StartEvent::Listed(Err(e))) => (
                StartPipeline::Finished,
                StartAction::Finish(Err(Error::Cloud(e))),
            ),
            (StartPipeline::Listing, StartEvent::Listed(Ok(servers))) => {
                if servers.len() > 0 {
                    let first = servers[0].duplicate();
                    (StartPipeline::Finished, StartAction::Finish(Err(Error::AlreadyRunning(first))))
                } else {
                    (StartPipeline::Spawning, StartAction::Spawn)
                }
            },
            (StartPipeline::Spawning, StartEvent::Spawned(Err(e))) => (
                StartPipeline::Finished,
                StartAction::Finish(Err(Error::Cloud(e))),
            ),
            (StartPipeline::Spawning, StartEvent::Spawned(Ok(created))) => {
                let id = created.id.clone();
                (StartPipeline::WaitingForIp { created }, StartAction::WaitForIp { id })
            },
            (StartPipeline::WaitingForIp { created }, StartEvent::IpReady(Err(e))) => (
                StartPipeline::Finished,
                StartAction::Finish(Err(Error::Cloud(e))),
            ),
            (StartPipeline::WaitingForIp { created }, StartEvent::IpReady(Ok(server))) => {
                let ip = server.ip;
                let credential_note = created.auth.describe();
                (
                    StartPipeline::Connecting { server },
                    StartAction::Connect { ip, auth: created.auth, credential_note },
                )
            },
            (StartPipeline::Connecting { server }, StartEvent::Connected(Err(e))) => (
                StartPipeline::Finished,
                StartAction::Finish(Err(e)),
            ),
            (StartPipeline::Connecting { server }, StartEvent::Connected(Ok(_))) => {
                let setup = Setup { step: SetupStep::PullImage, pull_failures: 0 };
                let first = command(SetupStep::PullImage, &config.server, hostname(config));
                (
                    StartPipeline::SettingUp { server, setup },
                    StartAction::Exec {
                        after_secs: BOOT_WAIT_SECS + PULL_DELAY_SECS,
                        command: first,
                    },
                )
            },
            (StartPipeline::SettingUp { server, setup }, StartEvent::CommandEnded(outcome)) => {
                let mut setup = setup;
                let action = setup.advance(&config.server, hostname(config), outcome);
                match action {
                    SetupAction::Exec { after_secs, command } => (
                        StartPipeline::SettingUp { server, setup },
                        StartAction::Exec { after_secs, command },
                    ),
                    SetupAction::Done => (StartPipeline::Closing { server }, StartAction::Close),
                    SetupAction::Fail(e) => (StartPipeline::Finished, StartAction::Finish(Err(e))),
                }
            },
            (StartPipeline::Closing { server }, StartEvent::Closed(Err(e))) => (
                StartPipeline::Finished,
                StartAction::Finish(Err(Error::Ssh(e))),
            ),
            (StartPipeline::Closing { server }, StartEvent::Closed(Ok(_))) => {
                let (host, publish) = match &config.dyndns {
                    Some(dns) => (
                        ConnectHost::Name(dns.hostname.clone()),
                        Some(dns_update(dns, server.ip)),
                    ),
                    None => (ConnectHost::Address(server.ip), None),
                };
                let started = Started {
                    server,
                    host,
                    password: config.server.password.clone(),
                    publish,
                };
                (StartPipeline::Finished, StartAction::Finish(Ok(started)))
            },
            (state, _) => (state, StartAction::Nothing),
        }
    }
}

/// The pipeline ends in success only when the close of the session has
/// been acknowledged after a setup that ran through, and that end is the
/// only step that asks for the address to be published. Once the pipeline
/// has finished it asks for nothing more, so the address is published at
/// most once.
pub proof fn law_published_on_success_only(state: StartPipeline, event: StartEvent)
    ensures
        spec_start_step(state, event).1 is Succeed <==> state is Closing && event is Closed
            && event->Closed_0 is Ok,
        spec_start_step(state, event).1 matches StartVerdict::Succeed { server } ==> state
            is Closing && server == state->Closing_server && spec_start_step(state, event).0
            is Finished,
        spec_start_step(state, event).0 is Closing && !(state is Closing) ==> state
            is SettingUp && event is CommandEnded && spec_advance(
            state->setup,
            event->CommandEnded_0,
        ).1 == SetupVerdict::Done,
        state is Finished ==> spec_start_step(state, event) == (
            StartPipeline::Finished,
            StartVerdict::Nothing,
        ),
{
}

} // verus!
