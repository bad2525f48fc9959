//! The remote command channel, seen from the controller: how a failure of
//! the transport is classified, what a finished command amounts to, and when
//! a connection attempt is repeated.

use crate::cloud::CloudError;
use crate::error::Error;
use vstd::prelude::*;
use vstd::string::*;

verus! {

/// A failure of the transport that has no class of its own; the text
/// describes it.
#[derive(Debug, Clone, PartialEq, Eq)]
pub struct SshErrorImpl(pub String);

/// Why a remote session could not be opened or used.
#[derive(Debug, Clone, PartialEq, Eq)]
pub enum SshError {
    Other(SshErrorImpl),
    /// The instance refused the credential. Fatal.
    Unauthorized,
    /// The instance does not accept connections yet.
    ConnectionTimeout,
    Disconnected,
}

/// The operating system's error number for "connection timed out".
pub const OS_CONNECTION_TIMED_OUT: i32 = 110i32;

/// A failure as the transport reports it, before it is classified.
#[derive(Debug, Clone, PartialEq, Eq)]
pub enum TransportFault {
    /// The peer sent a disconnect message.
    Disconnect,
    /// The connection was closed under the session.
    Hup,
    /// The transport gave up waiting for the peer.
    ConnectionTimeout,
    /// An I/O error, with the operating system's error number if it has one.
    Io { os_error: Option<i32>, description: String },
    /// Anything else.
    Other { description: String },
}

impl SshError {
    /// The class that a transport failure falls into.
    pub open spec fn spec_from_fault(fault: TransportFault) -> SshError {
        match fault {
            TransportFault::Disconnect => SshError::Disconnected,
            TransportFault::Hup => SshError::Disconnected,
            TransportFault::ConnectionTimeout => SshError::ConnectionTimeout,
            TransportFault::Io { os_error, description } => if os_error == Some(
                OS_CONNECTION_TIMED_OUT,
            ) {
                SshError::ConnectionTimeout
            } else {
                SshError::Other(SshErrorImpl(description))
            },
            TransportFault::Other { description } => SshError::Other(SshErrorImpl(description)),
        }
    }

    /// Classifies a transport failure: a disconnect and a hang-up mean
    /// `Disconnected`; a timeout of the transport, or an I/O error whose
    /// number is that of a timed-out connection, means `ConnectionTimeout`;
    /// everything else is kept as `Other` with its description.
    pub fn from_fault(fault: TransportFault) -> (r: SshError)
        ensures
            r == Self::spec_from_fault(fault),
    {
        match fault {
            TransportFault::Disconnect => SshError::Disconnected,
            TransportFault::Hup => SshError::Disconnected,
            TransportFault::ConnectionTimeout => SshError::ConnectionTimeout,
            TransportFault::Io { os_error, description } => {
                let timed_out = match os_error {
                    Some(code) => code == OS_CONNECTION_TIMED_OUT,
                    None => false,
                };
                if timed_out {
                    SshError::ConnectionTimeout
                } else {
                    SshError::Other(SshErrorImpl(description))
                }
            },
            TransportFault::Other { description } => SshError::Other(SshErrorImpl(description)),
        }
    }
}

/// What the channel of a running command delivers.
#[derive(Debug, Clone, PartialEq, Eq)]
pub enum ChannelEvent {
    /// A piece of what the command printed.
    Data(Vec<u8>),
    /// The exit code of the command.
    ExitStatus(u32),
    /// Anything else. It is passed over.
    Other,
}

/// What a finished command left behind: all that it printed, and its exit
/// code if the channel delivered one.
#[derive(Debug, Clone, PartialEq, Eq)]
pub struct CommandResult {
    pub output: Vec<u8>,
    pub code: Option<u32>,
}

/// What the bytes `bytes` read as when every ill-formed UTF-8 sequence in
/// them is replaced by U+FFFD.
pub uninterp spec fn spec_utf8_lossy(bytes: Seq<u8>) -> Seq<char>;

/// `String::from_utf8_lossy`, as an owned string. Trusted: the result is the
/// named reading of the bytes.
#[verifier::external_body]
fn utf8_lossy(bytes: &Vec<u8>) -> (r: String)
    ensures
        r@ == spec_utf8_lossy(bytes@),
{
    String::from_utf8_lossy(bytes).into_owned()
}

/// The output and the exit code after `event` has come in.
pub open spec fn spec_absorb(so_far: (Seq<u8>, Option<u32>), event: ChannelEvent) -> (
    Seq<u8>,
    Option<u32>,
) {
    match event {
        ChannelEvent::Data(data) => (so_far.0 + data@, so_far.1),
        ChannelEvent::ExitStatus(code) => (so_far.0, Some(code)),
        ChannelEvent::Other => so_far,
    }
}

/// The output and the exit code after all of `events` have come in, in
/// their order: every piece of data, one after the other, and the last exit
/// code.
pub open spec fn spec_collect(events: Seq<ChannelEvent>) -> (Seq<u8>, Option<u32>)
    decreases events.len(),
{
    if events.len() == 0 {
        (Seq::empty(), None)
    } else {
        spec_absorb(spec_collect(events.drop_last()), events.last())
    }
}

impl CommandResult {
    /// The result of a command of which nothing has been heard yet.
    pub fn new() -> (r: CommandResult)
        ensures
            r.output@ == Seq::<u8>::empty(),
            r.code is None,
    {
        CommandResult { output: Vec::new(), code: None }
    }

    /// A result with the given output and exit code.
    pub fn from_parts(output: Vec<u8>, code: Option<u32>) -> (r: CommandResult)
        ensures
            r.output@ == output@,
            r.code == code,
    {
        CommandResult { output, code }
    }

    /// Takes in what the channel delivered next.
    pub fn absorb(&mut self, event: ChannelEvent)
        ensures
            (final(self).output@, final(self).code) == spec_absorb(
                (old(self).output@, old(self).code),
                event,
            ),
    {
        match event {
            ChannelEvent::Data(data) => {
                let mut data = data;
                self.output.append(&mut data);
            },
            ChannelEvent::ExitStatus(code) => {
                self.code = Some(code);
            },
            ChannelEvent::Other => {},
        }
    }

    /// The result of a command whose channel delivered `events` and then
    /// closed.
    pub fn collect(events: Vec<ChannelEvent>) -> (r: CommandResult)
        ensures
            (r.output@, r.code) == spec_collect(events@),
    {
        let mut result = CommandResult::new();
        let ghost all = events@;
        for event in it: events
            invariant
                it.seq() == all,
                (result.output@, result.code) == spec_collect(all.take(it.index() as int)),
        {
            assert(all.take(it.index() + 1).drop_last() =~= all.take(it.index() as int));
            result.absorb(event);
        }
        assert(all.take(all.len() as int) =~= all);
        result
    }

    /// What the command printed, as text.
    pub fn output(&self) -> (r: String)
        ensures
            r@ == spec_utf8_lossy(self.output@),
    {
        utf8_lossy(&self.output)
    }

    /// Whether the command succeeded: whether its exit code is zero. A
    /// command of which no exit code is known has not succeeded.
    pub fn success(&self) -> (r: bool)
        ensures
            r == (self.code == Some(0u32)),
    {
        match self.code {
            Some(code) => code == 0,
            None => false,
        }
    }
}

/// Seconds after which connecting is given up, however the attempts ended.
/// The ceiling is on the whole of connecting: it is counted from the moment
/// connecting began, and no failure starts it anew.
pub const CONNECT_CEILING_SECS: u64 = 300;

/// Seconds to wait before an attempt to open a session.
pub const OPEN_RETRY_SECS: u64 = 1;

/// Seconds to wait before the session is opened anew after a failure of the
/// transport.
pub const CONNECT_RETRY_SECS: u64 = 5;

/// How often the session is opened anew after a failure of the transport.
pub const CONNECT_RETRIES: u32 = 5;

/// How one attempt to open a session ended: the transport connected and
/// the instance accepted the credential or not, or the transport failed.
pub open spec fn spec_attempt_outcome(attempt: Result<bool, TransportFault>) -> Result<
    (),
    SshError,
> {
    match attempt {
        Ok(accepted) => if accepted {
            Ok(())
        } else {
            Err(SshError::Unauthorized)
        },
        Err(fault) => Err(SshError::spec_from_fault(fault)),
    }
}

/// How one attempt to open a session ended. A credential that the instance
/// did not accept means `Unauthorized`.
pub fn attempt_outcome(attempt: Result<bool, TransportFault>) -> (r: Result<(), SshError>)
    ensures
        r == spec_attempt_outcome(attempt),
{
    match attempt {
        Ok(accepted) => {
            if accepted {
                Ok(())
            } else {
                Err(SshError::Unauthorized)
            }
        },
        Err(fault) => Err(SshError::from_fault(fault)),
    }
}

/// What follows an attempt to open a session.
#[derive(Debug, Clone, PartialEq, Eq)]
pub enum OpenStep {
    Connected,
    /// The instance does not accept connections yet: try again.
    RetryAfter { secs: u64 },
    /// The instance has not accepted a connection within the ceiling.
    TimedOut,
    /// The attempt failed for good.
    Fail(SshError),
}

/// What follows an attempt that ended in `outcome`, `elapsed_secs` seconds
/// after connecting began. Only an instance that does not accept connections
/// yet is tried again, and only until the ceiling is reached.
pub open spec fn spec_open_step(outcome: Result<(), SshError>, elapsed_secs: u64) -> OpenStep {
    match outcome {
        Ok(_) => OpenStep::Connected,
        Err(SshError::ConnectionTimeout) => if elapsed_secs >= CONNECT_CEILING_SECS {
            OpenStep::TimedOut
        } else {
            OpenStep::RetryAfter { secs: OPEN_RETRY_SECS }
        },
        Err(e) => OpenStep::Fail(e),
    }
}

/// What follows an attempt to open a session that ended in `outcome`,
/// `elapsed_secs` seconds after connecting began.
pub fn open_step(outcome: Result<(), SshError>, elapsed_secs: u64) -> (r: OpenStep)
    ensures
        r == spec_open_step(outcome, elapsed_secs),
{
    match outcome {
        Ok(_) => OpenStep::Connected,
        Err(SshError::ConnectionTimeout) => {
            if elapsed_secs >= CONNECT_CEILING_SECS {
                OpenStep::TimedOut
            } else {
                OpenStep::RetryAfter { secs: OPEN_RETRY_SECS }
            }
        },
        Err(e) => OpenStep::Fail(e),
    }
}

/// Why a session could not be opened.
#[derive(Debug, Clone, PartialEq, Eq)]
pub enum OpenFailure {
    /// The ceiling was reached.
    TimedOut,
    Failed(SshError),
}

/// What follows the opening of a session.
#[derive(Debug, Clone, PartialEq, Eq)]
pub enum ConnectStep {
    Connected,
    /// Open the session anew after this many seconds.
    RetryAfter { secs: u64 },
    GiveUp(Error),
}

/// The count of the times that a session was opened in vain.
#[derive(Debug, Clone, Copy, PartialEq, Eq, Structural)]
pub struct ConnectAttempts {
    pub tries: u32,
}

/// The count after the opening of a session has ended in `result`,
/// `elapsed_secs` seconds after connecting began, and what follows.
///
/// A rejected credential ends the matter at once. Any other failure is tried
/// again, but not once the ceiling is reached, which is reported as a start
/// that timed out, and not once it has come more often than
/// `CONNECT_RETRIES` times.
pub open spec fn spec_connect_step(
    tries: u32,
    result: Result<(), OpenFailure>,
    elapsed_secs: u64,
) -> (ConnectAttempts, ConnectStep) {
    let counted = ConnectAttempts {
        tries: if tries < u32::MAX {
            (tries + 1) as u32
        } else {
            tries
        },
    };
    match result {
        Ok(_) => (counted, ConnectStep::Connected),
        Err(OpenFailure::TimedOut) => (
            counted,
            ConnectStep::GiveUp(Error::Cloud(CloudError::StartTimeout)),
        ),
        Err(OpenFailure::Failed(SshError::Unauthorized)) => (
            counted,
            ConnectStep::GiveUp(Error::Ssh(SshError::Unauthorized)),
        ),
        Err(OpenFailure::Failed(e)) => if elapsed_secs >= CONNECT_CEILING_SECS {
            (counted, ConnectStep::GiveUp(Error::Cloud(CloudError::StartTimeout)))
        } else if counted.tries > CONNECT_RETRIES {
            (counted, ConnectStep::GiveUp(Error::Ssh(e)))
        } else {
            (counted, ConnectStep::RetryAfter { secs: CONNECT_RETRY_SECS })
        },
    }
}

impl ConnectAttempts {
    /// No session has been opened yet.
    pub fn new() -> (r: ConnectAttempts)
        ensures
            r.tries == 0,
    {
        ConnectAttempts { tries: 0 }
    }

    /// Takes in how the opening of a session ended, `elapsed_secs` seconds
    /// after connecting began.
    pub fn on_result(&mut self, result: Result<(), OpenFailure>, elapsed_secs: u64) -> (r:
        ConnectStep)
        ensures
            (*final(self), r) == spec_connect_step(old(self).tries, result, elapsed_secs),
    {
        if self.tries < u32::MAX {
            self.tries = self.tries + 1;
        }
        match result {
            Ok(_) => ConnectStep::Connected,
            Err(OpenFailure::TimedOut) => ConnectStep::GiveUp(
                Error::Cloud(CloudError::StartTimeout),
            ),
            Err(OpenFailure::Failed(SshError::Unauthorized)) => ConnectStep::GiveUp(
                Error::Ssh(SshError::Unauthorized),
            ),
            Err(OpenFailure::Failed(e)) => {
                if elapsed_secs >= CONNECT_CEILING_SECS {
                    ConnectStep::GiveUp(Error::Cloud(CloudError::StartTimeout))
                } else if self.tries > CONNECT_RETRIES {
                    ConnectStep::GiveUp(Error::Ssh(e))
                } else {
                    ConnectStep::RetryAfter { secs: CONNECT_RETRY_SECS }
                }
            },
        }
    }
}

/// The ceiling bounds the whole of connecting: once it is reached, no
/// attempt and no opening is followed by another, whatever failed and however
/// often, and what has not connected by then ends as a start that timed out
/// unless the credential was rejected or the attempt failed for good.
pub proof fn law_ceiling_bounds_connecting(
    outcome: Result<(), SshError>,
    tries: u32,
    result: Result<(), OpenFailure>,
    elapsed_secs: u64,
)
    requires
        elapsed_secs >= CONNECT_CEILING_SECS,
    ensures
        !(spec_open_step(outcome, elapsed_secs) is RetryAfter),
        outcome == Err::<(), SshError>(SshError::ConnectionTimeout) ==> spec_open_step(
            outcome,
            elapsed_secs,
        ) == OpenStep::TimedOut,
        !(spec_connect_step(tries, result, elapsed_secs).1 is RetryAfter),
        result is Err && result != Err::<(), OpenFailure>(
            OpenFailure::Failed(SshError::Unauthorized),
        ) ==> spec_connect_step(tries, result, elapsed_secs).1 == ConnectStep::GiveUp(
            Error::Cloud(CloudError::StartTimeout),
        ),
{
}

impl SshError {
    /// The text that describes the failure.
    pub open spec fn spec_message(&self) -> Seq<char> {
        match self {
            SshError::Other(e) => e.0@,
            SshError::Unauthorized => "Invalid credentials"@,
            SshError::ConnectionTimeout => "Connection timeout"@,
            SshError::Disconnected => "Disconnected by server"@,
        }
    }

    /// The text that describes the failure.
    pub fn message(&self) -> (r: String)
        ensures
            r@ == self.spec_message(),
    {
        match self {
            SshError::Other(e) => e.0.clone(),
            SshError::Unauthorized => String::from_str("Invalid credentials"),
            SshError::ConnectionTimeout => String::from_str("Connection timeout"),
            SshError::Disconnected => String::from_str("Disconnected by server"),
        }
    }
}

} // verus!
