//! What the controller knows of a cloud provider: the records it hands out,
//! the errors it reports, and the rules by which its answers are read.

use crate::text::{chars_of, first_index_from, same_range, spec_head, spec_tail};
use vstd::prelude::*;
use vstd::string::*;

pub mod digitalocean;
pub mod vultr;

verus! {

/// An IP address, held as the integer that its bytes spell in network order.
#[derive(Debug, Clone, Copy, PartialEq, Eq, Structural)]
pub enum IpAddress {
    V4(u32),
    V6(u128),
}

impl IpAddress {
    /// The address `0.0.0.0`, which a provider reports before it has
    /// assigned one.
    pub fn unspecified_v4() -> (r: IpAddress)
        ensures
            r == IpAddress::V4(0),
    {
        IpAddress::V4(0)
    }

    /// Whether this is the all-zero address of its family.
    pub open spec fn spec_is_unspecified(self) -> bool {
        match self {
            IpAddress::V4(bits) => bits == 0,
            IpAddress::V6(bits) => bits == 0,
        }
    }

    /// Whether this is the all-zero address of its family.
    pub fn is_unspecified(&self) -> (r: bool)
        ensures
            r == self.spec_is_unspecified(),
    {
        match self {
            IpAddress::V4(bits) => *bits == 0,
            IpAddress::V6(bits) => *bits == 0,
        }
    }
}

/// An instant as a provider reports it: seconds since the Unix epoch (UTC)
/// and the nanoseconds into that second.
#[derive(Debug, Clone, Copy, PartialEq, Eq, Structural)]
pub struct Timestamp {
    pub secs: i64,
    pub nanos: u32,
}

/// A provisioned instance.
#[derive(Debug, Clone, PartialEq, Eq)]
pub struct Server {
    pub id: String,
    pub created: Timestamp,
    pub ip: IpAddress,
    pub ip_v6: Option<IpAddress>,
}

/// The mathematical value of a `Server`.
pub struct ServerView {
    pub id: Seq<char>,
    pub created: Timestamp,
    pub ip: IpAddress,
    pub ip_v6: Option<IpAddress>,
}

impl View for Server {
    type V = ServerView;

    open spec fn view(&self) -> ServerView {
        ServerView { id: self.id@, created: self.created, ip: self.ip, ip_v6: self.ip_v6 }
    }
}

impl Server {
    /// A copy of this record.
    pub fn duplicate(&self) -> (r: Server)
        ensures
            r == *self,
    {
        Server { id: self.id.clone(), created: self.created, ip: self.ip, ip_v6: self.ip_v6 }
    }
}

/// A transport-level failure while talking to the provider. The cause is
/// kept only as the text that describes it.
#[derive(Debug, Clone, PartialEq, Eq)]
pub struct NetworkError(pub String);

/// An answer from the provider that could not be used.
#[derive(Debug, Clone, PartialEq, Eq)]
pub enum ResponseError {
    /// The body was not the JSON document that was expected.
    Json(String),
    /// The provider answered with something else; the text is its body.
    Other(String),
}

/// What can go wrong in any operation on a cloud provider.
#[derive(Debug, Clone, PartialEq, Eq)]
pub enum CloudError {
    /// The provider rejected the credentials. Not worth retrying.
    Unauthorized,
    /// The provider knows no instance of the id that was given.
    ServerNotFound,
    Network(NetworkError),
    InvalidResponse(ResponseError),
    /// The instance did not become reachable in time.
    StartTimeout,
}

/// The HTTP status "unauthorized".
pub const STATUS_UNAUTHORIZED: u16 = 401;

/// The HTTP status "forbidden".
pub const STATUS_FORBIDDEN: u16 = 403;

/// The HTTP status "not found".
pub const STATUS_NOT_FOUND: u16 = 404;

/// The tag that marks the instances of this service at the provider.
pub open spec fn spec_service_tag() -> Seq<char> {
    "spire"@
}

/// Milliseconds between two looks at an instance that has no address yet.
pub const IP_POLL_MILLIS: u64 = 500;

impl CloudError {
    /// What an HTTP status alone says of a request: `Unauthorized` for the
    /// statuses 401 and 403, nothing for any other.
    pub open spec fn spec_from_status_code(status: u16) -> Result<(), CloudError> {
        if status == STATUS_UNAUTHORIZED || status == STATUS_FORBIDDEN {
            Err(CloudError::Unauthorized)
        } else {
            Ok(())
        }
    }

    /// What an HTTP status alone says of a request.
    pub fn from_status_code(status: u16) -> (r: Result<(), CloudError>)
        ensures
            r == Self::spec_from_status_code(status),
    {
        if status == STATUS_UNAUTHORIZED || status == STATUS_FORBIDDEN {
            return Err(CloudError::Unauthorized);
        }
        Ok(())
    }
}

/// How a request to destroy an instance ended, by the status of the answer:
/// `Unauthorized` for the statuses 401 and 403, `ServerNotFound` for the
/// status 404, which the provider gives for an id that it does not know (any
/// longer), and success for every other status.
pub open spec fn spec_kill_outcome(status: u16) -> Result<(), CloudError> {
    if status == STATUS_UNAUTHORIZED || status == STATUS_FORBIDDEN {
        Err(CloudError::Unauthorized)
    } else if status == STATUS_NOT_FOUND {
        Err(CloudError::ServerNotFound)
    } else {
        Ok(())
    }
}

/// How a request to destroy an instance ended, by the status of the answer.
/// A stale id is a failure: the instance is not reported as destroyed.
pub fn kill_outcome(status: u16) -> (r: Result<(), CloudError>)
    ensures
        r == spec_kill_outcome(status),
{
    match CloudError::from_status_code(status) {
        Err(e) => Err(e),
        Ok(_) => {
            if status == STATUS_NOT_FOUND {
                Err(CloudError::ServerNotFound)
            } else {
                Ok(())
            }
        },
    }
}

/// Whether an HTTP status is one of success: one of 200 to 299.
pub open spec fn spec_is_success(status: u16) -> bool {
    200 <= status < 300
}

/// Whether an HTTP status is one of success.
pub fn is_success(status: u16) -> (r: bool)
    ensures
        r == spec_is_success(status),
{
    200 <= status && status < 300
}

/// What the status of an answer says of its body.
#[derive(Debug, Clone, Copy, PartialEq, Eq, Structural)]
pub enum ReplyClass {
    /// The provider rejected the credentials.
    Unauthorized,
    /// The body is the document that was asked for.
    Success,
    /// The provider refused the request; the body says why.
    Refused,
}

/// What the status of an answer says of its body.
pub open spec fn spec_classify_reply(status: u16) -> ReplyClass {
    if CloudError::spec_from_status_code(status) is Err {
        ReplyClass::Unauthorized
    } else if spec_is_success(status) {
        ReplyClass::Success
    } else {
        ReplyClass::Refused
    }
}

/// What the status of an answer says of its body.
pub fn classify_reply(status: u16) -> (r: ReplyClass)
    ensures
        r == spec_classify_reply(status),
{
    match CloudError::from_status_code(status) {
        Err(_) => ReplyClass::Unauthorized,
        Ok(_) => {
            if is_success(status) {
                ReplyClass::Success
            } else {
                ReplyClass::Refused
            }
        },
    }
}

/// The failure that a refused request ends in: an answer that cannot be
/// used, with the body of the answer as its text.
pub fn refused(body: String) -> (r: CloudError)
    ensures
        r == CloudError::InvalidResponse(ResponseError::Other(body)),
{
    CloudError::InvalidResponse(ResponseError::Other(body))
}

/// The key pair that is made for one provisioning and registered with the
/// provider only while the instance is created.
#[derive(Debug, Clone, PartialEq, Eq)]
pub struct DeployKey {
    /// The name of the key's algorithm, as it stands at the start of a
    /// public key line.
    pub algorithm: String,
    /// The public key, in base 64.
    pub public_key: String,
    /// The secret key, as the bytes it is stored in.
    pub secret: Vec<u8>,
}

/// The credential that opens the first session on a new instance. It is
/// used once and kept nowhere.
#[derive(Debug, Clone, PartialEq, Eq)]
pub enum CreatedAuth {
    /// The password that the provider set for `root`.
    Password(String),
    /// The key pair whose public half the instance was created with.
    Ssh(DeployKey),
}

/// A new instance: its id and the credential to log in with.
#[derive(Debug, Clone, PartialEq, Eq)]
pub struct Created {
    pub id: String,
    pub auth: CreatedAuth,
}

impl CreatedAuth {
    /// What may be shown of the credential: the password, but of a key only
    /// that there is one.
    pub open spec fn spec_describe(&self) -> Seq<char> {
        match self {
            CreatedAuth::Password(password) => password@,
            CreatedAuth::Ssh(_) => "public key only"@,
        }
    }

    /// What may be shown of the credential.
    pub fn describe(&self) -> (r: String)
        ensures
            r@ == self.spec_describe(),
    {
        match self {
            CreatedAuth::Password(password) => password.clone(),
            CreatedAuth::Ssh(_) => String::from_str("public key only"),
        }
    }
}

/// `petname::petname`, for a name of two words joined by a hyphen. Trusted
/// for nothing: the name is drawn at random, and no two calls need agree.
#[verifier::external_body]
pub(crate) fn fresh_name() -> (r: String) {
    petname::petname(2, "-")
}

/// What follows a look at an instance that is waited for.
#[derive(Debug, Clone, PartialEq, Eq)]
pub enum IpPoll {
    /// The instance has its public address.
    Ready(Server),
    /// It has none yet: look again after this many milliseconds.
    RetryAfter { millis: u64 },
    /// The provider could not be asked.
    Fail(CloudError),
}

/// What was spent on waiting for an instance to get its address.
#[derive(Debug, Clone, Copy, PartialEq, Eq, Structural)]
pub struct IpWait {
    /// How often the instance was looked at.
    pub polls: u64,
    /// The milliseconds of all the pauses between the looks.
    pub waited_millis: u64,
}

/// `a + b`, or the largest number if that is too large.
pub open spec fn spec_capped_sum(a: u64, b: u64) -> u64 {
    if a + b <= u64::MAX {
        (a + b) as u64
    } else {
        u64::MAX
    }
}

/// The tally after one more look, which ended in `step`.
pub open spec fn spec_record(wait: IpWait, step: IpPoll) -> IpWait {
    IpWait {
        polls: spec_capped_sum(wait.polls, 1),
        waited_millis: match step {
            IpPoll::RetryAfter { millis } => spec_capped_sum(wait.waited_millis, millis),
            _ => wait.waited_millis,
        },
    }
}

/// The tally after the looks that ended in `steps`, one after the other.
pub open spec fn spec_record_all(wait: IpWait, steps: Seq<IpPoll>) -> IpWait
    decreases steps.len(),
{
    if steps.len() == 0 {
        wait
    } else {
        spec_record(spec_record_all(wait, steps.drop_last()), steps.last())
    }
}

impl IpWait {
    /// Nothing has been spent yet.
    pub fn new() -> (r: IpWait)
        ensures
            r == (IpWait { polls: 0, waited_millis: 0 }),
    {
        IpWait { polls: 0, waited_millis: 0 }
    }

    /// Counts one look and the pause that follows it, if one does.
    pub fn record(&mut self, step: &IpPoll)
        ensures
            *final(self) == spec_record(*old(self), *step),
    {
        self.polls = self.polls.saturating_add(1);
        match step {
            IpPoll::RetryAfter { millis } => {
                self.waited_millis = self.waited_millis.saturating_add(*millis);
            },
            _ => {},
        }
    }
}

/// An instance that shows no address on its first `n` looks and shows one on
/// the next has been looked at `n + 1` times when it is ready, with a pause
/// of `IP_POLL_MILLIS` milliseconds before every look but the first.
pub proof fn law_looks_until_ready(steps: Seq<IpPoll>, n: nat)
    requires
        steps.len() == n + 1,
        forall|i: int| 0 <= i < n ==> #[trigger] steps[i] == (IpPoll::RetryAfter {
            millis: IP_POLL_MILLIS,
        }),
        steps[n as int] is Ready,
        (n + 1) * IP_POLL_MILLIS <= u64::MAX,
    ensures
        spec_record_all(IpWait { polls: 0, waited_millis: 0 }, steps) == (IpWait {
            polls: (n + 1) as u64,
            waited_millis: (n * IP_POLL_MILLIS) as u64,
        }),
{
    lemma_pauses_tally(steps.drop_last(), n);
}

/// The tally of `n` looks that all ended in a pause.
proof fn lemma_pauses_tally(steps: Seq<IpPoll>, n: nat)
    requires
        steps.len() == n,
        forall|i: int| 0 <= i < n ==> #[trigger] steps[i] == (IpPoll::RetryAfter {
            millis: IP_POLL_MILLIS,
        }),
        (n + 1) * IP_POLL_MILLIS <= u64::MAX,
    ensures
        spec_record_all(IpWait { polls: 0, waited_millis: 0 }, steps) == (IpWait {
            polls: n as u64,
            waited_millis: (n * IP_POLL_MILLIS) as u64,
        }),
    decreases n,
{
    if n > 0 {
        lemma_pauses_tally(steps.drop_last(), (n - 1) as nat);
    }
}

/// The second of the pieces that the spaces in `s` part it into, if there is
/// a second.
pub open spec fn spec_second_field(s: Seq<char>) -> Option<Seq<char>> {
    match spec_tail(s, ' ') {
        Some(rest) => Some(spec_head(rest, ' ')),
        None => None,
    }
}

/// Whether two public keys are the same key: whether the first two of the
/// pieces that spaces part them into (the algorithm and the key itself)
/// agree. What follows them, the comment, does not count.
pub open spec fn spec_same_key(a: Seq<char>, b: Seq<char>) -> bool {
    spec_head(a, ' ') == spec_head(b, ' ') && spec_second_field(a) == spec_second_field(b)
}

/// Whether two public keys, each written on one line, are the same key,
/// whatever their comments say.
pub fn key_cmp(a: &str, b: &str) -> (r: bool)
    ensures
        r == spec_same_key(a@, b@),
{
    same_key(a, b)
}

fn same_key(a: &str, b: &str) -> (r: bool)
    ensures
        r == spec_same_key(a@, b@),
{
    let va = chars_of(a);
    let vb = chars_of(b);
    let ia = first_index_from(&va, ' ', 0);
    let ib = first_index_from(&vb, ' ', 0);
    proof {
        assert(va@.skip(0) =~= va@);
        assert(vb@.skip(0) =~= vb@);
    }
    if !same_range(&va, 0, ia, &vb, 0, ib) {
        return false;
    }
    if ia == va.len() {
        return ib == vb.len();
    }
    if ib == vb.len() {
        return false;
    }
    let ja = first_index_from(&va, ' ', ia + 1);
    let jb = first_index_from(&vb, ' ', ib + 1);
    proof {
        let ta = va@.skip(ia + 1);
        let tb = vb@.skip(ib + 1);
        assert(spec_head(ta, ' ') =~= va@.subrange(ia + 1, ja as int));
        assert(spec_head(tb, ' ') =~= vb@.subrange(ib + 1, jb as int));
    }
    same_range(&va, ia + 1, ja, &vb, ib + 1, jb)
}

impl NetworkError {
    /// The text that describes the failure.
    pub open spec fn spec_message(&self) -> Seq<char> {
        self.0@
    }

    /// The text that describes the failure.
    pub fn message(&self) -> (r: String)
        ensures
            r@ == self.spec_message(),
    {
        self.0.clone()
    }
}

impl ResponseError {
    /// The text that describes the failure.
    pub open spec fn spec_message(&self) -> Seq<char> {
        match self {
            ResponseError::Json(why) => why@,
            ResponseError::Other(body) => "Unexpected response "@ + body@,
        }
    }

    /// The text that describes the failure.
    pub fn message(&self) -> (r: String)
        ensures
            r@ == self.spec_message(),
    {
        match self {
            ResponseError::Json(why) => why.clone(),
            ResponseError::Other(body) => {
                let mut text = String::from_str("Unexpected response ");
                text.append(body.as_str());
                text
            },
        }
    }
}

impl CloudError {
    /// The text that describes the failure.
    pub open spec fn spec_message(&self) -> Seq<char> {
        match self {
            CloudError::Unauthorized => "Invalid credentials"@,
            CloudError::ServerNotFound => "Specified server not found"@,
            CloudError::Network(e) => "Network error: "@ + e.spec_message(),
            CloudError::InvalidResponse(e) => "Network response from server: "@ + e.spec_message(),
            CloudError::StartTimeout => "Server boot timed out"@,
        }
    }

    /// The text that describes the failure.
    pub fn message(&self) -> (r: String)
        ensures
            r@ == self.spec_message(),
    {
        match self {
            CloudError::Unauthorized => String::from_str("Invalid credentials"),
            CloudError::ServerNotFound => String::from_str("Specified server not found"),
            CloudError::Network(e) => {
                let mut text = String::from_str("Network error: ");
                text.append(e.message().as_str());
                text
            },
            CloudError::InvalidResponse(e) => {
                let mut text = String::from_str("Network response from server: ");
                text.append(e.message().as_str());
                text
            },
            CloudError::StartTimeout => String::from_str("Server boot timed out"),
        }
    }
}

} // verus!
