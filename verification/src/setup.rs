//! The setup sequence: the commands that turn a bare instance into a running
//! game server, in their fixed order, and what follows the outcome of each.
//!
//! Nothing is undone when a command fails: the instance is left as it is for
//! an operator to look at.

use crate::config::ServerConfig;
use crate::error::Error;
use crate::ssh::{spec_utf8_lossy, CommandResult, SshError};
use vstd::prelude::*;
use vstd::string::*;

verus! {

/// Seconds that a fresh instance is given before the first command.
pub const BOOT_WAIT_SECS: u64 = 10;

/// Seconds to wait before every attempt to pull the image.
pub const PULL_DELAY_SECS: u64 = 2;

/// How often pulling the image is tried again after it has failed.
pub const PULL_RETRIES: u32 = 5;

/// The steps of the setup sequence, in their order.
#[derive(Debug, Clone, Copy, PartialEq, Eq, Structural)]
pub enum SetupStep {
    /// Pull the container image of the game server.
    PullImage,
    /// Start the container.
    StartContainer,
    /// Make room for the swap file.
    AllocateSwap,
    /// Turn the swap file on.
    EnableSwap,
    /// Fetch the service unit of the telemetry agent.
    FetchAgentUnit,
    /// Fetch the telemetry agent.
    FetchAgent,
    MakeAgentExecutable,
    /// Let the agent run as a user made for it.
    PatchAgentUnit,
    /// Let the agent be reached from outside.
    OpenAgentPort,
    /// Set the host name, if there is one, and start the agent.
    StartAgent,
}

/// Where the setup sequence stands.
#[derive(Debug, Clone, Copy, PartialEq, Eq, Structural)]
pub struct Setup {
    /// The step whose command is running.
    pub step: SetupStep,
    /// How often pulling the image has failed.
    pub pull_failures: u32,
}

/// What the setup sequence asks its caller to do next.
#[derive(Debug, Clone, PartialEq, Eq)]
pub enum SetupAction {
    /// Wait, run the command, and hand its outcome to `advance`.
    Exec { after_secs: u64, command: String },
    /// The instance is set up.
    Done,
    /// The setup has failed. No further command is to be run.
    Fail(Error),
}

/// What follows the outcome of a command, before the texts are filled in.
#[derive(Debug, Clone, Copy, PartialEq, Eq, Structural)]
pub enum SetupVerdict {
    /// Run the command of `step` after `after_secs` seconds.
    Run { step: SetupStep, after_secs: u64 },
    Done,
    /// The command ended with a non-zero exit code, or with none.
    CommandFailed,
    /// The session failed under the command.
    SessionFailed,
}

/// The step that follows `step`, if it is not the last.
pub open spec fn spec_next_step(step: SetupStep) -> Option<SetupStep> {
    match step {
        SetupStep::PullImage => Some(SetupStep::StartContainer),
        SetupStep::StartContainer => Some(SetupStep::AllocateSwap),
        SetupStep::AllocateSwap => Some(SetupStep::EnableSwap),
        SetupStep::EnableSwap => Some(SetupStep::FetchAgentUnit),
        SetupStep::FetchAgentUnit => Some(SetupStep::FetchAgent),
        SetupStep::FetchAgent => Some(SetupStep::MakeAgentExecutable),
        SetupStep::MakeAgentExecutable => Some(SetupStep::PatchAgentUnit),
        SetupStep::PatchAgentUnit => Some(SetupStep::OpenAgentPort),
        SetupStep::OpenAgentPort => Some(SetupStep::StartAgent),
        SetupStep::StartAgent => None,
    }
}

/// The step that follows `step`, if it is not the last.
pub fn next_step(step: SetupStep) -> (r: Option<SetupStep>)
    ensures
        r == spec_next_step(step),
{
    match step {
        SetupStep::PullImage => Some(SetupStep::StartContainer),
        SetupStep::StartContainer => Some(SetupStep::AllocateSwap),
        SetupStep::AllocateSwap => Some(SetupStep::EnableSwap),
        SetupStep::EnableSwap => Some(SetupStep::FetchAgentUnit),
        SetupStep::FetchAgentUnit => Some(SetupStep::FetchAgent),
        SetupStep::FetchAgent => Some(SetupStep::MakeAgentExecutable),
        SetupStep::MakeAgentExecutable => Some(SetupStep::PatchAgentUnit),
        SetupStep::PatchAgentUnit => Some(SetupStep::OpenAgentPort),
        SetupStep::OpenAgentPort => Some(SetupStep::StartAgent),
        SetupStep::StartAgent => None,
    }
}

/// Whether the command of a step has succeeded: whether it ran to its end
/// and its exit code is zero.
pub open spec fn spec_succeeded(outcome: Result<CommandResult, SshError>) -> bool {
    outcome matches Ok(result) && result.code == Some(0u32)
}

/// Where the sequence stands after the command of `state.step` has ended in
/// `outcome`, and what follows.
///
/// A command that succeeded is followed by the command of the next step, at
/// once. Pulling the image is tried again, after a pause, until it has failed
/// more often than `PULL_RETRIES` times. Every other failure ends the setup.
pub open spec fn spec_advance(state: Setup, outcome: Result<CommandResult, SshError>) -> (
    Setup,
    SetupVerdict,
) {
    if outcome is Err {
        (state, SetupVerdict::SessionFailed)
    } else if spec_succeeded(outcome) {
        match spec_next_step(state.step) {
            Some(step) => (
                Setup { step, pull_failures: state.pull_failures },
                SetupVerdict::Run { step, after_secs: 0 },
            ),
            None => (state, SetupVerdict::Done),
        }
    } else if state.step == SetupStep::PullImage && state.pull_failures < PULL_RETRIES {
        (
            Setup { step: state.step, pull_failures: (state.pull_failures + 1) as u32 },
            SetupVerdict::Run { step: SetupStep::PullImage, after_secs: PULL_DELAY_SECS },
        )
    } else {
        (state, SetupVerdict::CommandFailed)
    }
}

/// The text of the option of a configuration, which is empty where the
/// option is not set.
pub open spec fn spec_or_empty(value: Option<String>) -> Seq<char> {
    match value {
        Some(text) => text@,
        None => Seq::empty(),
    }
}

/// The command that starts the container, with the settings of the game
/// server in its environment.
pub open spec fn spec_start_container(config: ServerConfig) -> Seq<char> {
    "docker run --name spire -d -e NAME="@ + config.name@ + " -e TV_NAME="@ + config.tv_name@
        + " -e PASSWORD="@ + config.password@ + " -e RCON_PASSWORD="@ + config.rcon@
        + " -e DEMOSTF_APIKEY="@ + spec_or_empty(config.demostf_key) + " -e LOGSTF_APIKEY="@
        + spec_or_empty(config.logstf_key) + " -e CONFIG_LEAGUE="@ + config.config_league@
        + " -e CONFIG_MODE="@ + config.config_mode@ + " -e 'EXTRA_CFG="@ + config.extra_cfg@
        + "' -p 27015:27015 -p 27021:27021 -p 27015:27015/udp -p 27020:27020/udp -p 27025:27025 -p 28015:27015 -p 28015:27015/udp -p 27115:27015 -p 27115:27015/udp -p 27215:27015 -p 27215:27015/udp -p 27315:27015 -p 27315:27015/udp -p 27415:27015 -p 27415:27015/udp -p 27515:27015 -p 27515:27015/udp -p 27615:27015 -p 27615:27015/udp -p 27715:27015 -p 27715:27015/udp -p 27815:27015 -p 27815:27015/udp -p 27915:27015 -p 27915:27015/udp "@
        + config.image@ + "\n            "@
}

/// The command of a step.
pub open spec fn spec_command(
    step: SetupStep,
    config: ServerConfig,
    hostname: Option<Seq<char>>,
) -> Seq<char> {
    match step {
        SetupStep::PullImage => "docker pull "@ + config.image@,
        SetupStep::StartContainer => spec_start_container(config),
        SetupStep::AllocateSwap => "dd if=/dev/zero of=/swapfile bs=1M count=1024"@,
        SetupStep::EnableSwap => "chmod 600 /swapfile && mkswap /swapfile && swapon /swapfile"@,
        SetupStep::FetchAgentUnit => "wget https://github.com/icewind1991/palantir/raw/main/palantir.service -O /etc/systemd/system/palantir.service"@,
        SetupStep::FetchAgent => "wget https://github.com/icewind1991/palantir/releases/download/v1.1.0/palantir-x86_64-unknown-linux-musl -O /usr/local/bin/palantir"@,
        SetupStep::MakeAgentExecutable => "chmod +x /usr/local/bin/palantir"@,
        SetupStep::PatchAgentUnit => "sed -i -e \"s|User=palantir|DynamicUser=true|\" /etc/systemd/system/palantir.service"@,
        SetupStep::OpenAgentPort => "iptables -I INPUT -p tcp --dport 5665 -j ACCEPT"@,
        SetupStep::StartAgent => match hostname {
            Some(name) => "hostname "@ + name + " && systemctl start palantir"@,
            None => "systemctl start palantir"@,
        },
    }
}

/// The characters of a host name, if there is one.
pub open spec fn spec_name(hostname: Option<&str>) -> Option<Seq<char>> {
    match hostname {
        Some(name) => Some(name@),
        None => None,
    }
}

/// Whether `action` is what `verdict` asks for, with the texts filled in:
/// the command of the step, or what the failed command printed.
pub open spec fn spec_carries_out(
    action: SetupAction,
    verdict: SetupVerdict,
    config: ServerConfig,
    hostname: Option<Seq<char>>,
    outcome: Result<CommandResult, SshError>,
) -> bool {
    match verdict {
        SetupVerdict::Run { step, after_secs } => action matches SetupAction::Exec {
            after_secs: wait,
            command,
        } && wait == after_secs && command@ == spec_command(step, config, hostname),
        SetupVerdict::Done => action == SetupAction::Done,
        SetupVerdict::CommandFailed => {
            &&& outcome is Ok
            &&& action matches SetupAction::Fail(Error::SetupError(text))
            &&& text@ == spec_utf8_lossy(outcome->Ok_0.output@)
        },
        SetupVerdict::SessionFailed => outcome is Err && action == SetupAction::Fail(
            Error::Ssh(outcome->Err_0),
        ),
    }
}

/// The text of the option of a configuration, which is empty where the
/// option is not set.
fn or_empty(value: &Option<String>) -> (r: &str)
    ensures
        r@ == spec_or_empty(*value),
{
    match value {
        Some(text) => text.as_str(),
        None => {
            proof {
                reveal_strlit("");
            }
            ""
        },
    }
}

/// The command that starts the container.
pub fn start_container(config: &ServerConfig) -> (r: String)
    ensures
        r@ == spec_start_container(*config),
{
    let mut c = String::from_str("docker run --name spire -d -e NAME=");
    c.append(config.name.as_str());
    c.append(" -e TV_NAME=");
    c.append(config.tv_name.as_str());
    c.append(" -e PASSWORD=");
    c.append(config.password.as_str());
    c.append(" -e RCON_PASSWORD=");
    c.append(config.rcon.as_str());
    c.append(" -e DEMOSTF_APIKEY=");
    c.append(or_empty(&config.demostf_key));
    c.append(" -e LOGSTF_APIKEY=");
    c.append(or_empty(&config.logstf_key));
    c.append(" -e CONFIG_LEAGUE=");
    c.append(config.config_league.as_str());
    c.append(" -e CONFIG_MODE=");
    c.append(config.config_mode.as_str());
    c.append(" -e 'EXTRA_CFG=");
    c.append(config.extra_cfg.as_str());
    c.append(
        "' -p 27015:27015 -p 27021:27021 -p 27015:27015/udp -p 27020:27020/udp -p 27025:27025 -p 28015:27015 -p 28015:27015/udp -p 27115:27015 -p 27115:27015/udp -p 27215:27015 -p 27215:27015/udp -p 27315:27015 -p 27315:27015/udp -p 27415:27015 -p 27415:27015/udp -p 27515:27015 -p 27515:27015/udp -p 27615:27015 -p 27615:27015/udp -p 27715:27015 -p 27715:27015/udp -p 27815:27015 -p 27815:27015/udp -p 27915:27015 -p 27915:27015/udp ",
    );
    c.append(config.image.as_str());
    c.append("\n            ");
    c
}

/// The command of a step.
pub fn command(step: SetupStep, config: &ServerConfig, hostname: Option<&str>) -> (r: String)
    ensures
        r@ == spec_command(step, *config, spec_name(hostname)),
{
    match step {
        SetupStep::PullImage => {
            let mut c = String::from_str("docker pull ");
            c.append(config.image.as_str());
            c
        },
        SetupStep::StartContainer => start_container(config),
        SetupStep::AllocateSwap => String::from_str(
            "dd if=/dev/zero of=/swapfile bs=1M count=1024",
        ),
        SetupStep::EnableSwap => String::from_str(
            "chmod 600 /swapfile && mkswap /swapfile && swapon /swapfile",
        ),
        SetupStep::FetchAgentUnit => String::from_str(
            "wget https://github.com/icewind1991/palantir/raw/main/palantir.service -O /etc/systemd/system/palantir.service",
        ),
        SetupStep::FetchAgent => String::from_str(
            "wget https://github.com/icewind1991/palantir/releases/download/v1.1.0/palantir-x86_64-unknown-linux-musl -O /usr/local/bin/palantir",
        ),
        SetupStep::MakeAgentExecutable => String::from_str("chmod +x /usr/local/bin/palantir"),
        SetupStep::PatchAgentUnit => String::from_str(
            "sed -i -e \"s|User=palantir|DynamicUser=true|\" /etc/systemd/system/palantir.service",
        ),
        SetupStep::OpenAgentPort => String::from_str(
            "iptables -I INPUT -p tcp --dport 5665 -j ACCEPT",
        ),
        SetupStep::StartAgent => match hostname {
            Some(name) => {
                let mut c = String::from_str("hostname ");
                c.append(name);
                c.append(" && systemctl start palantir");
                c
            },
            None => String::from_str("systemctl start palantir"),
        },
    }
}

impl Setup {
    /// The start of the sequence: the image is pulled once the instance has
    /// had time to boot.
    pub fn begin(config: &ServerConfig, hostname: Option<&str>) -> (r: (Setup, SetupAction))
        ensures
            r.0 == (Setup { step: SetupStep::PullImage, pull_failures: 0 }),
            r.1 matches SetupAction::Exec { after_secs, command } && after_secs == BOOT_WAIT_SECS
                + PULL_DELAY_SECS && command@ == spec_command(
                SetupStep::PullImage,
                *config,
                spec_name(hostname),
            ),
    {
        let state = Setup { step: SetupStep::PullImage, pull_failures: 0 };
        let action = SetupAction::Exec {
            after_secs: BOOT_WAIT_SECS + PULL_DELAY_SECS,
            command: command(SetupStep::PullImage, config, hostname),
        };
        (state, action)
    }

    /// Takes in the outcome of the command of the current step and says what
    /// is to be done next.
    pub fn advance(
        &mut self,
        config: &ServerConfig,
        hostname: Option<&str>,
        outcome: Result<CommandResult, SshError>,
    ) -> (action: SetupAction)
        ensures
            *final(self) == spec_advance(*old(self), outcome).0,
            spec_carries_out(
                action,
                spec_advance(*old(self), outcome).1,
                *config,
                spec_name(hostname),
                outcome,
            ),
    {
        let result = match outcome {
            Err(e) => {
                return SetupAction::Fail(Error::Ssh(e));
            },
            Ok(result) => result,
        };
        if result.success() {
            match next_step(self.step) {
                Some(step) => {
                    self.step = step;
                    SetupAction::Exec { after_secs: 0, command: command(step, config, hostname) }
                },
                None => SetupAction::Done,
            }
        } else if self.step == SetupStep::PullImage && self.pull_failures < PULL_RETRIES {
            self.pull_failures = self.pull_failures + 1;
            SetupAction::Exec {
                after_secs: PULL_DELAY_SECS,
                command: command(SetupStep::PullImage, config, hostname),
            }
        } else {
            SetupAction::Fail(Error::SetupError(result.output()))
        }
    }
}

/// Pulling the image is tried again after each of its first `PULL_RETRIES`
/// failures, which are counted, and a success then carries the setup on to
/// the next step with the count as it stands. The failure after those ends
/// the setup with what that last command printed.
pub proof fn law_pull_is_retried(state: Setup, result: CommandResult)
    requires
        state.step == SetupStep::PullImage,
    ensures
        result.code != Some(0u32) && state.pull_failures < PULL_RETRIES ==> spec_advance(
            state,
            Ok(result),
        ) == (
            Setup { step: SetupStep::PullImage, pull_failures: (state.pull_failures + 1) as u32 },
            SetupVerdict::Run { step: SetupStep::PullImage, after_secs: PULL_DELAY_SECS },
        ),
        result.code != Some(0u32) && state.pull_failures >= PULL_RETRIES ==> spec_advance(
            state,
            Ok(result),
        ) == (state, SetupVerdict::CommandFailed),
        result.code == Some(0u32) ==> spec_advance(state, Ok(result)) == (
            Setup { step: SetupStep::StartContainer, pull_failures: state.pull_failures },
            SetupVerdict::Run { step: SetupStep::StartContainer, after_secs: 0 },
        ),
{
}

/// Where the sequence stands after the commands that it asked for, one
/// after the other, have ended in `outcomes`.
pub open spec fn spec_advance_all(
    state: Setup,
    outcomes: Seq<Result<CommandResult, SshError>>,
) -> Setup
    decreases outcomes.len(),
{
    if outcomes.len() == 0 {
        state
    } else {
        spec_advance(spec_advance_all(state, outcomes.drop_last()), outcomes.last()).0
    }
}

/// A setup whose first `k` pulls all fail, for `k` up to `PULL_RETRIES`, is
/// still pulling, and has counted `k` failures. So a pull that then
/// succeeds leaves exactly `k` failures on record, and the pull that fails
/// after `PULL_RETRIES` failures is the last.
pub proof fn law_pull_failures_are_counted(outcomes: Seq<Result<CommandResult, SshError>>)
    requires
        outcomes.len() <= PULL_RETRIES,
        forall|i: int|
            0 <= i < outcomes.len() ==> (#[trigger] outcomes[i]) is Ok && !spec_succeeded(
                outcomes[i],
            ),
    ensures
        spec_advance_all(Setup { step: SetupStep::PullImage, pull_failures: 0 }, outcomes) == (
            Setup { step: SetupStep::PullImage, pull_failures: outcomes.len() as u32 }
        ),
    decreases outcomes.len(),
{
    if outcomes.len() > 0 {
        law_pull_failures_are_counted(outcomes.drop_last());
    }
}

} // verus!
