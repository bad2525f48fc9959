use dispenser::cloud::CloudError;
use dispenser::error::Error;
use dispenser::ssh::{
    attempt_outcome, open_step, ChannelEvent, CommandResult, ConnectAttempts, ConnectStep,
    OpenFailure, OpenStep, SshError, SshErrorImpl, TransportFault, CONNECT_CEILING_SECS,
    CONNECT_RETRIES, CONNECT_RETRY_SECS, OPEN_RETRY_SECS, OS_CONNECTION_TIMED_OUT,
};

fn other(text: &str) -> SshError {
    SshError::Other(SshErrorImpl(text.to_string()))
}

#[test]
fn ssh_constants() {
    assert_eq!(CONNECT_CEILING_SECS, 300);
    assert_eq!(OPEN_RETRY_SECS, 1);
    assert_eq!(CONNECT_RETRY_SECS, 5);
    assert_eq!(CONNECT_RETRIES, 5);
    assert_eq!(OS_CONNECTION_TIMED_OUT, 110);
}

#[test]
fn disconnect_and_hang_up_mean_disconnected() {
    assert_eq!(SshError::from_fault(TransportFault::Disconnect), SshError::Disconnected);
    assert_eq!(SshError::from_fault(TransportFault::Hup), SshError::Disconnected);
}

#[test]
fn transport_timeout_means_connection_timeout() {
    assert_eq!(
        SshError::from_fault(TransportFault::ConnectionTimeout),
        SshError::ConnectionTimeout
    );
}

#[test]
fn io_error_110_means_connection_timeout() {
    let fault = TransportFault::Io { os_error: Some(110), description: "timed out".to_string() };
    assert_eq!(SshError::from_fault(fault), SshError::ConnectionTimeout);
}

#[test]
fn other_io_errors_are_kept() {
    let fault = TransportFault::Io { os_error: Some(111), description: "refused".to_string() };
    assert_eq!(SshError::from_fault(fault), other("refused"));
    let fault = TransportFault::Io { os_error: None, description: "eof".to_string() };
    assert_eq!(SshError::from_fault(fault), other("eof"));
    let fault = TransportFault::Other { description: "kex".to_string() };
    assert_eq!(SshError::from_fault(fault), other("kex"));
}

#[test]
fn rejected_credential_means_unauthorized() {
    assert_eq!(attempt_outcome(Ok(true)), Ok(()));
    assert_eq!(attempt_outcome(Ok(false)), Err(SshError::Unauthorized));
    assert_eq!(attempt_outcome(Err(TransportFault::Hup)), Err(SshError::Disconnected));
}

#[test]
fn open_is_tried_again_only_after_connection_timeout() {
    assert_eq!(open_step(Ok(()), 0), OpenStep::Connected);
    assert_eq!(open_step(Ok(()), 1_000), OpenStep::Connected);
    assert_eq!(
        open_step(Err(SshError::ConnectionTimeout), 0),
        OpenStep::RetryAfter { secs: 1 }
    );
    assert_eq!(
        open_step(Err(SshError::ConnectionTimeout), 299),
        OpenStep::RetryAfter { secs: 1 }
    );
    assert_eq!(open_step(Err(SshError::Unauthorized), 0), OpenStep::Fail(SshError::Unauthorized));
    assert_eq!(open_step(Err(SshError::Disconnected), 0), OpenStep::Fail(SshError::Disconnected));
    assert_eq!(open_step(Err(other("x")), 10), OpenStep::Fail(other("x")));
}

#[test]
fn open_times_out_at_the_ceiling() {
    assert_eq!(open_step(Err(SshError::ConnectionTimeout), 300), OpenStep::TimedOut);
    assert_eq!(open_step(Err(SshError::ConnectionTimeout), u64::MAX), OpenStep::TimedOut);
}

#[test]
fn connect_gives_up_at_once_when_unauthorized() {
    let mut attempts = ConnectAttempts::new();
    let step = attempts.on_result(Err(OpenFailure::Failed(SshError::Unauthorized)), 6);
    assert_eq!(step, ConnectStep::GiveUp(Error::Ssh(SshError::Unauthorized)));
    assert_eq!(attempts.tries, 1);
}

#[test]
fn connect_reports_the_ceiling_as_start_timeout() {
    let mut attempts = ConnectAttempts::new();
    let step = attempts.on_result(Err(OpenFailure::TimedOut), 300);
    assert_eq!(step, ConnectStep::GiveUp(Error::Cloud(CloudError::StartTimeout)));
}

#[test]
fn connect_tries_again_five_times_after_transport_failures() {
    let mut attempts = ConnectAttempts::new();
    for failures in 1..=5u32 {
        let elapsed = 6 * failures as u64;
        let step = attempts.on_result(Err(OpenFailure::Failed(SshError::Disconnected)), elapsed);
        assert_eq!(step, ConnectStep::RetryAfter { secs: 5 });
        assert_eq!(attempts.tries, failures);
    }
    let step = attempts.on_result(Err(OpenFailure::Failed(other("last"))), 36);
    assert_eq!(step, ConnectStep::GiveUp(Error::Ssh(other("last"))));
    assert_eq!(attempts.tries, 6);
}

#[test]
fn connect_succeeds_after_failures() {
    let mut attempts = ConnectAttempts::new();
    attempts.on_result(Err(OpenFailure::Failed(SshError::Disconnected)), 6);
    assert_eq!(attempts.on_result(Ok(()), 12), ConnectStep::Connected);
    assert_eq!(attempts.tries, 2);
    // A session that opens past the ceiling is still a session.
    assert_eq!(ConnectAttempts::new().on_result(Ok(()), 1_000), ConnectStep::Connected);
}

#[test]
fn connect_count_does_not_overflow() {
    let mut attempts = ConnectAttempts { tries: u32::MAX };
    let step = attempts.on_result(Err(OpenFailure::Failed(SshError::Disconnected)), 0);
    assert_eq!(step, ConnectStep::GiveUp(Error::Ssh(SshError::Disconnected)));
    assert_eq!(attempts.tries, u32::MAX);
}

#[test]
fn ceiling_is_not_started_anew_by_a_transport_failure() {
    // The first failure comes 299 seconds after connecting began: one more
    // opening is asked for.
    let mut attempts = ConnectAttempts::new();
    let step = attempts.on_result(Err(OpenFailure::Failed(SshError::Disconnected)), 299);
    assert_eq!(step, ConnectStep::RetryAfter { secs: 5 });
    // It fails too, past the ceiling: that is the end, after two openings.
    let step = attempts.on_result(Err(OpenFailure::Failed(SshError::Disconnected)), 304);
    assert_eq!(step, ConnectStep::GiveUp(Error::Cloud(CloudError::StartTimeout)));
    assert_eq!(attempts.tries, 2);
    // Inside the second opening the clock was not set back either.
    assert_eq!(open_step(Err(SshError::ConnectionTimeout), 304), OpenStep::TimedOut);
}

#[test]
fn no_failure_is_tried_again_at_the_ceiling() {
    let failures = [
        OpenFailure::TimedOut,
        OpenFailure::Failed(SshError::Disconnected),
        OpenFailure::Failed(SshError::ConnectionTimeout),
        OpenFailure::Failed(other("reset")),
    ];
    for failure in failures {
        for elapsed in [300u64, 301, u64::MAX] {
            let step = ConnectAttempts::new().on_result(Err(failure.clone()), elapsed);
            assert_eq!(step, ConnectStep::GiveUp(Error::Cloud(CloudError::StartTimeout)));
        }
    }
    let step = ConnectAttempts::new()
        .on_result(Err(OpenFailure::Failed(SshError::Unauthorized)), 300);
    assert_eq!(step, ConnectStep::GiveUp(Error::Ssh(SshError::Unauthorized)));
}

#[test]
fn command_output_is_all_data_in_order() {
    let result = CommandResult::collect(vec![
        ChannelEvent::Data(b"hello ".to_vec()),
        ChannelEvent::Other,
        ChannelEvent::Data(b"world".to_vec()),
        ChannelEvent::ExitStatus(0),
        ChannelEvent::Data(b"!".to_vec()),
    ]);
    assert_eq!(result.output, b"hello world!".to_vec());
    assert_eq!(result.output(), "hello world!");
    assert_eq!(result.code, Some(0));
    assert!(result.success());
}

#[test]
fn last_exit_status_counts() {
    let result = CommandResult::collect(vec![
        ChannelEvent::ExitStatus(0),
        ChannelEvent::ExitStatus(2),
    ]);
    assert_eq!(result.code, Some(2));
    assert!(!result.success());
}

#[test]
fn command_without_exit_status_has_not_succeeded() {
    let result = CommandResult::collect(vec![ChannelEvent::Data(b"x".to_vec())]);
    assert_eq!(result.code, None);
    assert!(!result.success());
    let nothing = CommandResult::collect(vec![]);
    assert_eq!(nothing, CommandResult::new());
    assert_eq!(nothing.output(), "");
    assert!(!nothing.success());
}

#[test]
fn absorb_takes_events_one_by_one() {
    let mut result = CommandResult::new();
    result.absorb(ChannelEvent::Data(vec![b'a']));
    result.absorb(ChannelEvent::ExitStatus(1));
    result.absorb(ChannelEvent::Other);
    result.absorb(ChannelEvent::Data(vec![b'b']));
    assert_eq!(result, CommandResult::from_parts(vec![b'a', b'b'], Some(1)));
}

#[test]
fn ill_formed_output_is_read_with_replacement_characters() {
    let result = CommandResult::from_parts(vec![b'a', 0xff, b'b'], Some(0));
    assert_eq!(result.output(), "a\u{fffd}b");
    let result = CommandResult::from_parts("grüß".as_bytes().to_vec(), Some(0));
    assert_eq!(result.output(), "grüß");
}

#[test]
fn ssh_error_messages() {
    assert_eq!(SshError::Unauthorized.message(), "Invalid credentials");
    assert_eq!(SshError::ConnectionTimeout.message(), "Connection timeout");
    assert_eq!(SshError::Disconnected.message(), "Disconnected by server");
    assert_eq!(other("broken pipe").message(), "broken pipe");
}
