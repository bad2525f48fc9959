//! The Vultr provider: how its answers are read, and what an instance is
//! created with.

use crate::cloud::{
    fresh_name, key_cmp, law_looks_until_ready, spec_record_all, spec_same_key, spec_service_tag,
    CloudError, Created, CreatedAuth, IpAddress, IpPoll, IpWait, ResponseError, Server, Timestamp,
    IP_POLL_MILLIS,
};
use crate::text::same_text;
use vstd::prelude::*;
use vstd::string::*;

verus! {

/// An account on Vultr, and where and how large its instances are made.
#[derive(Debug, Clone, PartialEq, Eq)]
pub struct Vultr {
    pub region: String,
    pub plan: String,
    pub token: String,
}

impl Vultr {
    /// The account that `token` gives access to.
    pub fn new(token: String, region: String, plan: String) -> (r: Vultr)
        ensures
            r.token == token,
            r.region == region,
            r.plan == plan,
    {
        Vultr { token, region, plan }
    }
}

/// An instance as the provider describes it.
#[derive(Debug, Clone, PartialEq, Eq)]
pub struct Instance {
    pub id: String,
    pub os: String,
    pub ram: u64,
    /// The public IPv4 address; the unspecified address until one is
    /// assigned.
    pub main_ip: IpAddress,
    pub v6_main_ip: Option<IpAddress>,
    pub region: String,
    pub vcpu_count: u16,
    pub date_created: Timestamp,
    pub tag: String,
}

impl Instance {
    /// The record of this instance.
    pub open spec fn spec_server(self) -> Server {
        Server {
            id: self.id,
            created: self.date_created,
            ip: self.main_ip,
            ip_v6: self.v6_main_ip,
        }
    }

    /// Whether this instance belongs to the service.
    pub open spec fn spec_is_ours(&self) -> bool {
        self.tag@ == spec_service_tag()
    }

    /// Whether the instance has its public IPv4 address.
    pub open spec fn spec_has_ip(&self) -> bool {
        !self.main_ip.spec_is_unspecified()
    }

    /// The record of this instance.
    pub fn server(self) -> (r: Server)
        ensures
            r == self.spec_server(),
    {
        Server {
            id: self.id,
            created: self.date_created,
            ip: self.main_ip,
            ip_v6: self.v6_main_ip,
        }
    }

    /// Whether this instance belongs to the service.
    pub fn is_ours(&self) -> (r: bool)
        ensures
            r == self.spec_is_ours(),
    {
        same_text(self.tag.as_str(), "spire")
    }
}

/// The records of those of `instances` that belong to the service, in their
/// order.
pub open spec fn spec_list(instances: Seq<Instance>) -> Seq<Server> {
    instances.filter_map(
        |i: Instance|
            if i.spec_is_ours() {
                Some(i.spec_server())
            } else {
                None
            },
    )
}

/// The records of the service's instances among all the instances of the
/// account. An account without instances has none.
pub fn list(instances: Vec<Instance>) -> (r: Vec<Server>)
    ensures
        r@ == spec_list(instances@),
{
    let mut servers: Vec<Server> = Vec::new();
    let ghost all = instances@;
    for instance in it: instances
        invariant
            it.seq() == all,
            servers@ == spec_list(all.take(it.index() as int)),
    {
        assert(all.take(it.index() + 1).drop_last() =~= all.take(it.index() as int));
        if instance.is_ours() {
            servers.push(instance.server());
        }
    }
    assert(all.take(all.len() as int) =~= all);
    servers
}

/// What follows a look at an instance that is waited for: its record once
/// it has a public IPv4 address, another look after a pause before that.
pub open spec fn spec_poll(reply: Result<Instance, CloudError>) -> IpPoll {
    match reply {
        Err(e) => IpPoll::Fail(e),
        Ok(instance) => if instance.spec_has_ip() {
            IpPoll::Ready(instance.spec_server())
        } else {
            IpPoll::RetryAfter { millis: IP_POLL_MILLIS }
        },
    }
}

/// What follows a look at an instance that is waited for.
pub fn wait_for_ip(reply: Result<Instance, CloudError>) -> (step: IpPoll)
    ensures
        step == spec_poll(reply),
{
    match reply {
        Err(e) => IpPoll::Fail(e),
        Ok(instance) => {
            if !instance.main_ip.is_unspecified() {
                IpPoll::Ready(instance.server())
            } else {
                IpPoll::RetryAfter { millis: IP_POLL_MILLIS }
            }
        },
    }
}

/// An instance is reported ready only on a look that shows its public IPv4
/// address. One that shows none on its first `n` looks and shows one on the
/// next is looked at `n + 1` times, with `IP_POLL_MILLIS` milliseconds
/// between the looks.
pub proof fn law_ready_only_with_address(looks: Seq<Instance>, n: nat)
    requires
        looks.len() == n + 1,
        forall|i: int| 0 <= i < n ==> !(#[trigger] looks[i]).spec_has_ip(),
        looks[n as int].spec_has_ip(),
        (n + 1) * IP_POLL_MILLIS <= u64::MAX,
    ensures
        forall|i: int|
            0 <= i <= n ==> (spec_poll(Ok(#[trigger] looks[i])) is Ready <==> i == n),
        spec_poll(Ok(looks[n as int])) == IpPoll::Ready(looks[n as int].spec_server()),
        spec_record_all(
            IpWait { polls: 0, waited_millis: 0 },
            looks.map_values(|look: Instance| spec_poll(Ok(look))),
        ) == (IpWait { polls: (n + 1) as u64, waited_millis: (n * IP_POLL_MILLIS) as u64 }),
{
    let steps = looks.map_values(|look: Instance| spec_poll(Ok(look)));
    assert forall|i: int| 0 <= i < n implies #[trigger] steps[i] == (IpPoll::RetryAfter {
        millis: IP_POLL_MILLIS,
    }) by {
        assert(!looks[i].spec_has_ip());
    }
    law_looks_until_ready(steps, n);
}

/// A public key that the account holds.
#[derive(Debug, Clone, PartialEq, Eq)]
pub struct SshKey {
    pub id: String,
    pub name: String,
    pub ssh_key: String,
}

/// The id of the first of `keys` that is the same key as `wanted`, whatever
/// the comments of the two say.
pub open spec fn spec_find_key(keys: Seq<SshKey>, wanted: Seq<char>) -> Option<String>
    decreases keys.len(),
{
    if keys.len() == 0 {
        None
    } else if spec_same_key(keys[0].ssh_key@, wanted) {
        Some(keys[0].id)
    } else {
        spec_find_key(keys.drop_first(), wanted)
    }
}

/// Whether `key` is the same key as `wanted`.
fn key_matches(key: &SshKey, wanted: &str) -> (r: bool)
    ensures
        r == spec_same_key(key.ssh_key@, wanted@),
{
    key_cmp(key.ssh_key.as_str(), wanted)
}

/// The id of the first of `keys` that is the same key as `wanted`.
pub fn find_key(keys: &Vec<SshKey>, wanted: &str) -> (r: Option<String>)
    ensures
        r == spec_find_key(keys@, wanted@),
{
    let mut i: usize = 0;
    assert(keys@.skip(0) =~= keys@);
    while i < keys.len()
        invariant
            i <= keys.len(),
            spec_find_key(keys@, wanted@) == spec_find_key(keys@.skip(i as int), wanted@),
        decreases keys.len() - i,
    {
        if key_matches(&keys[i], wanted) {
            return Some(keys[i].id.clone());
        }
        assert(keys@.skip(i as int).drop_first() =~= keys@.skip(i + 1));
        i += 1;
    }
    None
}

/// How the id of a public key is had: the account holds the key already, or
/// the key is to be registered.
#[derive(Debug, Clone, PartialEq, Eq)]
pub enum KeyLookup {
    Found(String),
    Register { name: String, ssh_key: String },
}

/// How the id of the public key `wanted` is had, given the keys that the
/// account holds. A key that it does not hold is registered under the name
/// `Dispenser Key`.
pub fn get_ssh_key_id(keys: &Vec<SshKey>, wanted: &str) -> (r: KeyLookup)
    ensures
        match spec_find_key(keys@, wanted@) {
            Some(id) => r == KeyLookup::Found(id),
            None => r matches KeyLookup::Register { name, ssh_key } && name@ == "Dispenser Key"@
                && ssh_key@ == wanted@,
        },
{
    match find_key(keys, wanted) {
        Some(id) => KeyLookup::Found(id),
        None => KeyLookup::Register {
            name: String::from_str("Dispenser Key"),
            ssh_key: wanted.to_owned(),
        },
    }
}

/// An application that instances can be made from.
#[derive(Debug, Clone, PartialEq, Eq)]
pub struct Application {
    pub image_id: String,
    pub short_name: String,
}

/// The image of the first of `applications` that goes by `short_name`.
pub open spec fn spec_find_application(
    applications: Seq<Application>,
    short_name: Seq<char>,
) -> Option<String>
    decreases applications.len(),
{
    if applications.len() == 0 {
        None
    } else if applications[0].short_name@ == short_name {
        Some(applications[0].image_id)
    } else {
        spec_find_application(applications.drop_first(), short_name)
    }
}

/// The text that says that no application goes by `short_name`.
pub open spec fn spec_not_found(short_name: Seq<char>) -> Seq<char> {
    "Application \""@ + short_name + "\" not found"@
}

/// The image of the first of `applications` that goes by `short_name`. That
/// there is none is an answer that cannot be used.
pub fn get_app_image_id(applications: &Vec<Application>, short_name: &str) -> (r: Result<
    String,
    CloudError,
>)
    ensures
        match spec_find_application(applications@, short_name@) {
            Some(image_id) => r == Ok::<String, CloudError>(image_id),
            None => r matches Err(CloudError::InvalidResponse(ResponseError::Other(text)))
                && text@ == spec_not_found(short_name@),
        },
{
    let mut i: usize = 0;
    assert(applications@.skip(0) =~= applications@);
    while i < applications.len()
        invariant
            i <= applications.len(),
            spec_find_application(applications@, short_name@) == spec_find_application(
                applications@.skip(i as int),
                short_name@,
            ),
        decreases applications.len() - i,
    {
        if same_text(applications[i].short_name.as_str(), short_name) {
            return Ok(applications[i].image_id.clone());
        }
        assert(applications@.skip(i as int).drop_first() =~= applications@.skip(i + 1));
        i += 1;
    }
    let mut text = String::from_str("Application \"");
    text.append(short_name);
    text.append("\" not found");
    Err(CloudError::InvalidResponse(ResponseError::Other(text)))
}

/// The short name of the application that instances are made from.
pub open spec fn spec_application() -> Seq<char> {
    "docker"@
}

/// What an instance is created with.
#[derive(Debug, Clone, PartialEq, Eq)]
pub struct CreateParams {
    pub region: String,
    pub plan: String,
    pub tag: String,
    pub label: String,
    pub image_id: String,
    pub sshkey_id: Vec<String>,
    pub enable_ipv6: bool,
}

impl Vultr {
    /// What a new instance is created with: the region and the plan of the
    /// account, the tag of the service, the given image and keys, and IPv6.
    /// Its label is not fixed.
    pub fn create_params(&self, key_ids: Vec<String>, image_id: String) -> (r: CreateParams)
        ensures
            r.region == self.region,
            r.plan == self.plan,
            r.tag@ == spec_service_tag(),
            r.image_id == image_id,
            r.sshkey_id == key_ids,
            r.enable_ipv6,
    {
        CreateParams {
            region: self.region.clone(),
            plan: self.plan.clone(),
            tag: String::from_str("spire"),
            label: fresh_name(),
            image_id,
            sshkey_id: key_ids,
            enable_ipv6: true,
        }
    }
}

/// The new instance that the provider reports: its id, and the password
/// that the provider has set.
pub fn created(id: String, default_password: String) -> (r: Created)
    ensures
        r == (Created { id, auth: CreatedAuth::Password(default_password) }),
{
    Created { id, auth: CreatedAuth::Password(default_password) }
}

/// A new instance as the provider reports it.
#[derive(Debug, Clone, PartialEq, Eq)]
pub struct NewInstance {
    pub id: String,
    pub default_password: String,
}

/// Where the creation of an instance stands.
#[derive(Debug, PartialEq, Eq)]
pub enum InstanceSpawn {
    /// The ids of the configured public keys are being looked up.
    ResolvingKeys,
    /// The applications are being listed, to find the image.
    FindingImage { key_ids: Vec<String> },
    /// The instance is being created.
    Creating,
    Finished,
}

/// What the provider answered.
#[derive(Debug, PartialEq, Eq)]
pub enum SpawnEvent {
    /// The ids of all the configured public keys, or the first failure.
    KeysResolved(Result<Vec<String>, CloudError>),
    ApplicationsListed(Result<Vec<Application>, CloudError>),
    InstanceCreated(Result<NewInstance, CloudError>),
}

/// What is to be asked of the provider next.
#[derive(Debug, PartialEq, Eq)]
pub enum SpawnAction {
    /// Look up the id of every configured public key.
    ResolveKeys,
    ListApplications,
    CreateInstance(CreateParams),
    /// The creation has ended.
    Finish(Result<Created, CloudError>),
    /// The event answers nothing that was asked. Nothing has changed.
    Nothing,
}

/// What is to be done next, before the texts are filled in.
pub enum SpawnVerdict {
    ListApplications,
    /// Create the instance from this image, with these keys authorized.
    Create { key_ids: Vec<String>, image_id: String },
    /// No application goes by the name that is looked for.
    NoImage,
    Finish(Result<Created, CloudError>),
    Nothing,
}

/// The stage after `event` has come in, and what is to be done next.
pub open spec fn spec_step(state: InstanceSpawn, event: SpawnEvent) -> (
    InstanceSpawn,
    SpawnVerdict,
) {
    match (state, event) {
        (InstanceSpawn::ResolvingKeys, SpawnEvent::KeysResolved(Ok(key_ids))) => (
            InstanceSpawn::FindingImage { key_ids },
            SpawnVerdict::ListApplications,
        ),
        (InstanceSpawn::ResolvingKeys, SpawnEvent::KeysResolved(Err(e))) => (
            InstanceSpawn::Finished,
            SpawnVerdict::Finish(Err(e)),
        ),
        (InstanceSpawn::FindingImage { key_ids }, SpawnEvent::ApplicationsListed(Ok(applications))) => {
            match spec_find_application(applications@, spec_application()) {
                Some(image_id) => (
                    InstanceSpawn::Creating,
                    SpawnVerdict::Create { key_ids, image_id },
                ),
                None => (InstanceSpawn::Finished, SpawnVerdict::NoImage),
            }
        },
        (InstanceSpawn::FindingImage { key_ids }, SpawnEvent::ApplicationsListed(Err(e))) => (
            InstanceSpawn::Finished,
            SpawnVerdict::Finish(Err(e)),
        ),
        (InstanceSpawn::Creating, SpawnEvent::InstanceCreated(Ok(instance))) => (
            InstanceSpawn::Finished,
            SpawnVerdict::Finish(
                Ok(
                    Created {
                        id: instance.id,
                        auth: CreatedAuth::Password(instance.default_password),
                    },
                ),
            ),
        ),
        (InstanceSpawn::Creating, SpawnEvent::InstanceCreated(Err(e))) => (
            InstanceSpawn::Finished,
            SpawnVerdict::Finish(Err(e)),
        ),
        _ => (state, SpawnVerdict::Nothing),
    }
}

/// Whether `action` is what `verdict` asks for, with the texts filled in.
pub open spec fn spec_carries_out(action: SpawnAction, verdict: SpawnVerdict, provider: Vultr) -> bool {
    match verdict {
        SpawnVerdict::ListApplications => action == SpawnAction::ListApplications,
        SpawnVerdict::Create { key_ids, image_id } => {
            &&& action matches SpawnAction::CreateInstance(params)
            &&& params.region == provider.region
            &&& params.plan == provider.plan
            &&& params.tag@ == spec_service_tag()
            &&& params.image_id == image_id
            &&& params.sshkey_id == key_ids
            &&& params.enable_ipv6
        },
        SpawnVerdict::NoImage => {
            &&& action matches SpawnAction::Finish(
                Err(CloudError::InvalidResponse(ResponseError::Other(text))),
            )
            &&& text@ == spec_not_found(spec_application())
        },
        SpawnVerdict::Finish(outcome) => action == SpawnAction::Finish(outcome),
        SpawnVerdict::Nothing => action == SpawnAction::Nothing,
    }
}

impl InstanceSpawn {
    /// The start of a spawn: the ids of the configured keys are looked up.
    pub fn begin() -> (r: (InstanceSpawn, SpawnAction))
        ensures
            r.0 == InstanceSpawn::ResolvingKeys,
            r.1 == SpawnAction::ResolveKeys,
    {
        (InstanceSpawn::ResolvingKeys, SpawnAction::ResolveKeys)
    }

    /// Takes in what the provider answered and says what is to be asked
    /// next.
    pub fn step(self, provider: &Vultr, event: SpawnEvent) -> (r: (InstanceSpawn, SpawnAction))
        ensures
            r.0 == spec_step(self, event).0,
            spec_carries_out(r.1, spec_step(self, event).1, *provider),
    {
        match (self, event) {
            (InstanceSpawn::ResolvingKeys, SpawnEvent::KeysResolved(Ok(key_ids))) => (
                InstanceSpawn::FindingImage { key_ids },
                SpawnAction::ListApplications,
            ),
            (InstanceSpawn::ResolvingKeys, SpawnEvent::KeysResolved(Err(e))) => (
                InstanceSpawn::Finished,
                SpawnAction::Finish(Err(e)),
            ),
            (
                InstanceSpawn::FindingImage { key_ids },
                SpawnEvent::ApplicationsListed(Ok(applications)),
            ) => {
                match get_app_image_id(&applications, "docker") {
                    Ok(image_id) => (
                        InstanceSpawn::Creating,
                        SpawnAction::CreateInstance(provider.create_params(key_ids, image_id)),
                    ),
                    Err(e) => (InstanceSpawn::Finished, SpawnAction::Finish(Err(e))),
                }
            },
            (InstanceSpawn::FindingImage { key_ids }, SpawnEvent::ApplicationsListed(Err(e))) => (
                InstanceSpawn::Finished,
                SpawnAction::Finish(Err(e)),
            ),
            (InstanceSpawn::Creating, SpawnEvent::InstanceCreated(Ok(instance))) => (
                InstanceSpawn::Finished,
                SpawnAction::Finish(Ok(created(instance.id, instance.default_password))),
            ),
            (InstanceSpawn::Creating, SpawnEvent::InstanceCreated(Err(e))) => (
                InstanceSpawn::Finished,
                SpawnAction::Finish(Err(e)),
            ),
            (state, _) => (state, SpawnAction::Nothing),
        }
    }
}

} // verus!
