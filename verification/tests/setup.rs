use dispenser::config::ServerConfig;
use dispenser::error::Error;
use dispenser::setup::{
    command, next_step, start_container, Setup, SetupAction, SetupStep, BOOT_WAIT_SECS,
    PULL_DELAY_SECS, PULL_RETRIES,
};
use dispenser::ssh::{CommandResult, SshError};

fn config() -> ServerConfig {
    ServerConfig {
        rcon: "rc0n".to_string(),
        password: "pw".to_string(),
        image: "spiretf/docker-spire-server".to_string(),
        demostf_key: Some("demo".to_string()),
        logstf_key: None,
        config_league: "etf2l".to_string(),
        config_mode: "6v6".to_string(),
        name: "Spire".to_string(),
        tv_name: "SpireTV".to_string(),
        extra_cfg: "sv_x 1".to_string(),
        ssh_keys: vec![],
        manage_existing: false,
    }
}

fn ok(output: &str) -> Result<CommandResult, SshError> {
    Ok(CommandResult::from_parts(output.as_bytes().to_vec(), Some(0)))
}

fn failed(output: &str, code: u32) -> Result<CommandResult, SshError> {
    Ok(CommandResult::from_parts(output.as_bytes().to_vec(), Some(code)))
}

fn exec(after_secs: u64, command: &str) -> SetupAction {
    SetupAction::Exec { after_secs, command: command.to_string() }
}

const PULL: &str = "docker pull spiretf/docker-spire-server";

#[test]
fn setup_constants() {
    assert_eq!(BOOT_WAIT_SECS, 10);
    assert_eq!(PULL_DELAY_SECS, 2);
    assert_eq!(PULL_RETRIES, 5);
}

#[test]
fn steps_follow_in_their_order() {
    let order = [
        SetupStep::PullImage,
        SetupStep::StartContainer,
        SetupStep::AllocateSwap,
        SetupStep::EnableSwap,
        SetupStep::FetchAgentUnit,
        SetupStep::FetchAgent,
        SetupStep::MakeAgentExecutable,
        SetupStep::PatchAgentUnit,
        SetupStep::OpenAgentPort,
        SetupStep::StartAgent,
    ];
    for pair in order.windows(2) {
        assert_eq!(next_step(pair[0]), Some(pair[1]));
    }
    assert_eq!(next_step(SetupStep::StartAgent), None);
}

#[test]
fn start_container_command_text() {
    let expected = "docker run --name spire -d -e NAME=Spire -e TV_NAME=SpireTV -e PASSWORD=pw \
-e RCON_PASSWORD=rc0n -e DEMOSTF_APIKEY=demo -e LOGSTF_APIKEY= -e CONFIG_LEAGUE=etf2l \
-e CONFIG_MODE=6v6 -e 'EXTRA_CFG=sv_x 1' \
-p 27015:27015 -p 27021:27021 -p 27015:27015/udp -p 27020:27020/udp -p 27025:27025 \
-p 28015:27015 -p 28015:27015/udp -p 27115:27015 -p 27115:27015/udp -p 27215:27015 \
-p 27215:27015/udp -p 27315:27015 -p 27315:27015/udp -p 27415:27015 -p 27415:27015/udp \
-p 27515:27015 -p 27515:27015/udp -p 27615:27015 -p 27615:27015/udp -p 27715:27015 \
-p 27715:27015/udp -p 27815:27015 -p 27815:27015/udp -p 27915:27015 -p 27915:27015/udp \
spiretf/docker-spire-server\n            ";
    assert_eq!(start_container(&config()), expected);
    assert_eq!(command(SetupStep::StartContainer, &config(), None), expected);
}

#[test]
fn command_texts() {
    let c = config();
    assert_eq!(command(SetupStep::PullImage, &c, None), PULL);
    assert_eq!(
        command(SetupStep::AllocateSwap, &c, None),
        "dd if=/dev/zero of=/swapfile bs=1M count=1024"
    );
    assert_eq!(
        command(SetupStep::EnableSwap, &c, None),
        "chmod 600 /swapfile && mkswap /swapfile && swapon /swapfile"
    );
    assert_eq!(
        command(SetupStep::FetchAgentUnit, &c, None),
        "wget https://github.com/icewind1991/palantir/raw/main/palantir.service -O /etc/systemd/system/palantir.service"
    );
    assert_eq!(
        command(SetupStep::FetchAgent, &c, None),
        "wget https://github.com/icewind1991/palantir/releases/download/v1.1.0/palantir-x86_64-unknown-linux-musl -O /usr/local/bin/palantir"
    );
    assert_eq!(
        command(SetupStep::MakeAgentExecutable, &c, None),
        "chmod +x /usr/local/bin/palantir"
    );
    assert_eq!(
        command(SetupStep::PatchAgentUnit, &c, None),
        "sed -i -e \"s|User=palantir|DynamicUser=true|\" /etc/systemd/system/palantir.service"
    );
    assert_eq!(
        command(SetupStep::OpenAgentPort, &c, None),
        "iptables -I INPUT -p tcp --dport 5665 -j ACCEPT"
    );
    assert_eq!(command(SetupStep::StartAgent, &c, None), "systemctl start palantir");
    assert_eq!(
        command(SetupStep::StartAgent, &c, Some("play.example.org")),
        "hostname play.example.org && systemctl start palantir"
    );
}

#[test]
fn setup_begins_with_the_pull_after_the_boot_wait() {
    let (setup, action) = Setup::begin(&config(), None);
    assert_eq!(setup, Setup { step: SetupStep::PullImage, pull_failures: 0 });
    assert_eq!(action, exec(12, PULL));
}

#[test]
fn pull_that_fails_five_times_then_succeeds() {
    let c = config();
    let (mut setup, _) = Setup::begin(&c, None);
    for failures in 1..=5u32 {
        let action = setup.advance(&c, None, failed("no route", 1));
        assert_eq!(action, exec(2, PULL));
        assert_eq!(setup, Setup { step: SetupStep::PullImage, pull_failures: failures });
    }
    let action = setup.advance(&c, None, ok("pulled"));
    assert_eq!(action, exec(0, &command(SetupStep::StartContainer, &c, None)));
    assert_eq!(setup, Setup { step: SetupStep::StartContainer, pull_failures: 5 });
    // The rest of the sequence runs through.
    let mut commands = 0;
    loop {
        match setup.advance(&c, None, ok("")) {
            SetupAction::Exec { after_secs, .. } => {
                assert_eq!(after_secs, 0);
                commands += 1;
            }
            SetupAction::Done => break,
            SetupAction::Fail(e) => panic!("setup failed: {:?}", e),
        }
    }
    assert_eq!(commands, 8);
    assert_eq!(setup.pull_failures, 5);
}

#[test]
fn pull_that_always_fails_ends_the_setup_with_the_last_output() {
    let c = config();
    let (mut setup, _) = Setup::begin(&c, None);
    let mut retries = 0;
    let mut attempt = 0;
    let failure = loop {
        attempt += 1;
        let output = format!("failure number {}", attempt);
        match setup.advance(&c, None, failed(&output, 1)) {
            SetupAction::Exec { after_secs, command } => {
                assert_eq!(after_secs, 2);
                assert_eq!(command, PULL);
                retries += 1;
            }
            SetupAction::Fail(e) => break e,
            SetupAction::Done => panic!("setup cannot be done"),
        }
    };
    assert_eq!(retries, 5);
    assert_eq!(setup.pull_failures, 5);
    assert_eq!(failure, Error::SetupError("failure number 6".to_string()));
}

#[test]
fn failed_container_start_ends_the_setup() {
    let c = config();
    let mut setup = Setup { step: SetupStep::StartContainer, pull_failures: 0 };
    let action = setup.advance(&c, None, failed("port in use", 125));
    assert_eq!(action, SetupAction::Fail(Error::SetupError("port in use".to_string())));
    assert_eq!(setup.step, SetupStep::StartContainer);
}

#[test]
fn failure_of_any_later_step_ends_the_setup() {
    let c = config();
    for step in [
        SetupStep::AllocateSwap,
        SetupStep::EnableSwap,
        SetupStep::FetchAgentUnit,
        SetupStep::FetchAgent,
        SetupStep::MakeAgentExecutable,
        SetupStep::PatchAgentUnit,
        SetupStep::OpenAgentPort,
        SetupStep::StartAgent,
    ] {
        let mut setup = Setup { step, pull_failures: 0 };
        let action = setup.advance(&c, None, failed("denied", 1));
        assert_eq!(action, SetupAction::Fail(Error::SetupError("denied".to_string())));
        assert_eq!(setup, Setup { step, pull_failures: 0 });
    }
}

#[test]
fn command_without_exit_code_has_failed() {
    let c = config();
    let mut setup = Setup { step: SetupStep::EnableSwap, pull_failures: 0 };
    let outcome = Ok(CommandResult::from_parts(b"cut off".to_vec(), None));
    let action = setup.advance(&c, None, outcome);
    assert_eq!(action, SetupAction::Fail(Error::SetupError("cut off".to_string())));
}

#[test]
fn session_failure_ends_the_setup_even_while_pulling() {
    let c = config();
    let (mut setup, _) = Setup::begin(&c, None);
    let action = setup.advance(&c, None, Err(SshError::Disconnected));
    assert_eq!(action, SetupAction::Fail(Error::Ssh(SshError::Disconnected)));
    assert_eq!(setup, Setup { step: SetupStep::PullImage, pull_failures: 0 });
}

#[test]
fn last_step_sets_the_host_name_if_there_is_one() {
    let c = config();
    let mut setup = Setup { step: SetupStep::OpenAgentPort, pull_failures: 0 };
    let action = setup.advance(&c, Some("play.example.org"), ok(""));
    assert_eq!(action, exec(0, "hostname play.example.org && systemctl start palantir"));
    assert_eq!(setup.advance(&c, Some("play.example.org"), ok("")), SetupAction::Done);
}
