//! The DigitalOcean provider: how its answers are read, and the order in
//! which an instance is created there.

use crate::cloud::{
    fresh_name, law_looks_until_ready, spec_record_all, spec_service_tag, CloudError, Created,
    CreatedAuth, DeployKey, IpAddress, IpPoll, IpWait, Server, ServerView, Timestamp,
    IP_POLL_MILLIS,
};
use crate::text::{decimal, same_text, spec_decimal};
use vstd::prelude::*;
use vstd::string::*;

verus! {

/// An account on DigitalOcean, and where and how large its instances are
/// made.
#[derive(Debug, Clone, PartialEq, Eq)]
pub struct DigitalOcean {
    pub region: String,
    pub plan: String,
    pub token: String,
}

impl DigitalOcean {
    /// The account that `token` gives access to.
    pub fn new(token: String, region: String, plan: String) -> (r: DigitalOcean)
        ensures
            r.token == token,
            r.region == region,
            r.plan == plan,
    {
        DigitalOcean { token, region, plan }
    }
}

/// Whether a network of a droplet can be reached from outside.
#[derive(Debug, Clone, Copy, PartialEq, Eq, Structural)]
pub enum NetworkKind {
    Private,
    Public,
}

/// One network that a droplet is attached to.
#[derive(Debug, Clone, PartialEq, Eq)]
pub struct Network {
    pub ip_address: IpAddress,
    pub gateway: String,
    pub kind: NetworkKind,
}

/// The networks of a droplet, by address family.
#[derive(Debug, Clone, PartialEq, Eq)]
pub struct Networks {
    pub v4: Vec<Network>,
    pub v6: Vec<Network>,
}

/// A droplet as the provider describes it.
#[derive(Debug, Clone, PartialEq, Eq)]
pub struct Droplet {
    pub id: u32,
    pub memory: u64,
    pub networks: Networks,
    pub vcpus: u16,
    pub created_at: Timestamp,
    pub tags: Vec<String>,
}

/// The address of the first public network among `networks`.
pub open spec fn spec_first_public(networks: Seq<Network>) -> Option<IpAddress>
    decreases networks.len(),
{
    if networks.len() == 0 {
        None
    } else if networks[0].kind == NetworkKind::Public {
        Some(networks[0].ip_address)
    } else {
        spec_first_public(networks.drop_first())
    }
}

/// The address of the first public network among `networks`.
pub fn first_public(networks: &Vec<Network>) -> (r: Option<IpAddress>)
    ensures
        r == spec_first_public(networks@),
{
    let mut i: usize = 0;
    assert(networks@.skip(0) =~= networks@);
    while i < networks.len()
        invariant
            i <= networks.len(),
            spec_first_public(networks@) == spec_first_public(networks@.skip(i as int)),
        decreases networks.len() - i,
    {
        match networks[i].kind {
            NetworkKind::Public => {
                return Some(networks[i].ip_address);
            },
            NetworkKind::Private => {},
        }
        assert(networks@.skip(i as int).drop_first() =~= networks@.skip(i + 1));
        i += 1;
    }
    None
}

/// Whether one of `tags` is `tag`.
pub open spec fn spec_has_tag(tags: Seq<String>, tag: Seq<char>) -> bool {
    exists|j: int| 0 <= j < tags.len() && (#[trigger] tags[j])@ == tag
}

/// Whether one of `tags` is `tag`.
pub fn has_tag(tags: &Vec<String>, tag: &str) -> (r: bool)
    ensures
        r == spec_has_tag(tags@, tag@),
{
    let mut j: usize = 0;
    while j < tags.len()
        invariant
            j <= tags.len(),
            forall|k: int| 0 <= k < j ==> (#[trigger] tags@[k])@ != tag@,
        decreases tags.len() - j,
    {
        if same_text(tags[j].as_str(), tag) {
            return true;
        }
        j += 1;
    }
    false
}

impl Droplet {
    /// The record of this droplet: its id in decimal digits, and the first
    /// public address of either family. A droplet without a public IPv4
    /// address is recorded with the unspecified address.
    pub open spec fn spec_server(&self) -> ServerView {
        ServerView {
            id: spec_decimal(self.id as nat),
            created: self.created_at,
            ip: match spec_first_public(self.networks.v4@) {
                Some(ip) => ip,
                None => IpAddress::V4(0),
            },
            ip_v6: spec_first_public(self.networks.v6@),
        }
    }

    /// Whether this droplet belongs to the service.
    pub open spec fn spec_is_ours(&self) -> bool {
        spec_has_tag(self.tags@, spec_service_tag())
    }

    /// Whether the droplet has its public IPv4 address.
    pub open spec fn spec_has_ip(&self) -> bool {
        spec_first_public(self.networks.v4@) is Some
    }

    /// The record of this droplet.
    pub fn server(&self) -> (r: Server)
        ensures
            r@ == self.spec_server(),
    {
        let ip = match first_public(&self.networks.v4) {
            Some(ip) => ip,
            None => IpAddress::unspecified_v4(),
        };
        Server {
            id: decimal(self.id),
            created: self.created_at,
            ip,
            ip_v6: first_public(&self.networks.v6),
        }
    }

    /// Whether this droplet belongs to the service.
    pub fn is_ours(&self) -> (r: bool)
        ensures
            r == self.spec_is_ours(),
    {
        has_tag(&self.tags, "spire")
    }
}

/// The records of those of `droplets` that belong to the service, in their
/// order.
pub open spec fn spec_list(droplets: Seq<Droplet>) -> Seq<ServerView> {
    droplets.filter_map(
        |d: Droplet|
            if d.spec_is_ours() {
                Some(d.spec_server())
            } else {
                None
            },
    )
}

/// The records of the service's instances among all the droplets of the
/// account. An account without droplets has none.
pub fn list(droplets: &Vec<Droplet>) -> (r: Vec<Server>)
    ensures
        r@.map_values(|s: Server| s@) == spec_list(droplets@),
{
    let mut servers: Vec<Server> = Vec::new();
    let mut i: usize = 0;
    while i < droplets.len()
        invariant
            i <= droplets.len(),
            servers@.map_values(|s: Server| s@) == spec_list(droplets@.take(i as int)),
        decreases droplets.len() - i,
    {
        assert(droplets@.take(i + 1).drop_last() =~= droplets@.take(i as int));
        if droplets[i].is_ours() {
            servers.push(droplets[i].server());
        }
        i += 1;
    }
    assert(droplets@.take(droplets.len() as int) =~= droplets@);
    servers
}

/// What follows a look at a droplet that is waited for: its record once it
/// has a public IPv4 address, another look after a pause before that.
pub open spec fn spec_poll(reply: Result<Droplet, CloudError>, step: IpPoll) -> bool {
    match reply {
        Err(e) => step == IpPoll::Fail(e),
        Ok(droplet) => if droplet.spec_has_ip() {
            step matches IpPoll::Ready(server) && server@ == droplet.spec_server()
        } else {
            step == (IpPoll::RetryAfter { millis: IP_POLL_MILLIS })
        },
    }
}

/// What follows a look at a droplet that is waited for.
pub fn wait_for_ip(reply: Result<Droplet, CloudError>) -> (step: IpPoll)
    ensures
        spec_poll(reply, step),
{
    match reply {
        Err(e) => IpPoll::Fail(e),
        Ok(droplet) => {
            if first_public(&droplet.networks.v4).is_some() {
                IpPoll::Ready(droplet.server())
            } else {
                IpPoll::RetryAfter { millis: IP_POLL_MILLIS }
            }
        },
    }
}

/// A droplet is reported ready only on a look that shows its public IPv4
/// address. One that shows none on its first `n` looks and shows one on the
/// next is looked at `n + 1` times, with `IP_POLL_MILLIS` milliseconds
/// between the looks.
pub proof fn law_ready_only_with_address(looks: Seq<Droplet>, steps: Seq<IpPoll>, n: nat)
    requires
        looks.len() == n + 1,
        steps.len() == n + 1,
        forall|i: int| 0 <= i <= n ==> spec_poll(Ok(looks[i]), #[trigger] steps[i]),
        forall|i: int| 0 <= i < n ==> !(#[trigger] looks[i]).spec_has_ip(),
        looks[n as int].spec_has_ip(),
        (n + 1) * IP_POLL_MILLIS <= u64::MAX,
    ensures
        forall|i: int| 0 <= i < n ==> #[trigger] steps[i] == (IpPoll::RetryAfter {
            millis: IP_POLL_MILLIS,
        }),
        steps[n as int] matches IpPoll::Ready(server) && server@ == looks[n as int].spec_server(),
        spec_record_all(IpWait { polls: 0, waited_millis: 0 }, steps) == (IpWait {
            polls: (n + 1) as u64,
            waited_millis: (n * IP_POLL_MILLIS) as u64,
        }),
{
    assert forall|i: int| 0 <= i < n implies #[trigger] steps[i] == (IpPoll::RetryAfter {
        millis: IP_POLL_MILLIS,
    }) by {
        assert(spec_poll(Ok(looks[i]), steps[i]));
    }
    law_looks_until_ready(steps, n);
}

/// A public key that the account holds.
#[derive(Debug, Clone, PartialEq, Eq)]
pub struct SshKey {
    pub id: u32,
    pub fingerprint: String,
    pub public_key: String,
    pub name: String,
}

/// The id of the first of `keys` whose public key is, letter for letter,
/// `wanted`.
pub open spec fn spec_find_key(keys: Seq<SshKey>, wanted: Seq<char>) -> Option<u32>
    decreases keys.len(),
{
    if keys.len() == 0 {
        None
    } else if keys[0].public_key@ == wanted {
        Some(keys[0].id)
    } else {
        spec_find_key(keys.drop_first(), wanted)
    }
}

/// The id of the first of `keys` whose public key is `wanted`.
pub fn find_key(keys: &Vec<SshKey>, wanted: &str) -> (r: Option<u32>)
    ensures
        r == spec_find_key(keys@, wanted@),
{
    let mut i: usize = 0;
    assert(keys@.skip(0) =~= keys@);
    while i < keys.len()
        invariant
            i <= keys.len(),
            spec_find_key(keys@, wanted@) == spec_find_key(keys@.skip(i as int), wanted@),
        decreases keys.len() - i,
    {
        if same_text(keys[i].public_key.as_str(), wanted) {
            return Some(keys[i].id);
        }
        assert(keys@.skip(i as int).drop_first() =~= keys@.skip(i + 1));
        i += 1;
    }
    None
}

/// How the id of a public key is had: the account holds the key already, or
/// the key is to be registered.
#[derive(Debug, Clone, PartialEq, Eq)]
pub enum KeyLookup {
    Found(u32),
    Register { name: String, public_key: String },
}

/// How the id of the public key `wanted` is had, given the keys that the
/// account holds. A key that it does not hold is registered under the name
/// `Dispenser Key`.
pub fn get_ssh_key_id(keys: &Vec<SshKey>, wanted: &str) -> (r: KeyLookup)
    ensures
        match spec_find_key(keys@, wanted@) {
            Some(id) => r == KeyLookup::Found(id),
            None => r matches KeyLookup::Register { name, public_key } && name@ == "Dispenser Key"@
                && public_key@ == wanted@,
        },
{
    match find_key(keys, wanted) {
        Some(id) => KeyLookup::Found(id),
        None => KeyLookup::Register {
            name: String::from_str("Dispenser Key"),
            public_key: wanted.to_owned(),
        },
    }
}

/// The line that registers the public half of a deploy key.
pub open spec fn spec_deploy_key_line(key: DeployKey) -> Seq<char> {
    key.algorithm@ + " "@ + key.public_key@ + " dispenser-deploy"@
}

/// The line that registers the public half of a deploy key.
pub fn deploy_key_line(key: &DeployKey) -> (r: String)
    ensures
        r@ == spec_deploy_key_line(*key),
{
    let mut line = key.algorithm.clone();
    line.append(" ");
    line.append(key.public_key.as_str());
    line.append(" dispenser-deploy");
    line
}

/// What a droplet is created with.
#[derive(Debug, Clone, PartialEq, Eq)]
pub struct CreateParams {
    pub name: String,
    pub region: String,
    pub size: String,
    pub tags: Vec<String>,
    pub image: String,
    pub ssh_keys: Vec<u32>,
    pub ipv6: bool,
}

/// Where the creation of a droplet stands.
///
/// A deploy key is registered with the account first. From then on every
/// path to the end leads through its revocation.
#[derive(Debug, PartialEq, Eq)]
pub enum DropletSpawn {
    /// The deploy key is being registered.
    RegisteringKey { deploy_key: DeployKey },
    /// The ids of the configured public keys are being looked up.
    ResolvingKeys { deploy_key: DeployKey, deploy_key_id: u32 },
    /// The droplet is being created.
    Creating { deploy_key: DeployKey, deploy_key_id: u32 },
    /// The deploy key is being revoked; `outcome` is what came before.
    Revoking { deploy_key: DeployKey, outcome: Result<u32, CloudError> },
    Finished,
}

/// What the provider answered.
#[derive(Debug, PartialEq, Eq)]
pub enum SpawnEvent {
    /// The deploy key was registered under this id, or not.
    KeyRegistered(Result<u32, CloudError>),
    /// The ids of all the configured public keys, or the first failure.
    KeysResolved(Result<Vec<u32>, CloudError>),
    /// The id of the new droplet, or why there is none.
    DropletCreated(Result<u32, CloudError>),
    KeyRevoked(Result<(), CloudError>),
}

/// What is to be asked of the provider next.
#[derive(Debug, PartialEq, Eq)]
pub enum SpawnAction {
    RegisterKey { name: String, public_key: String },
    /// Look up the id of every configured public key.
    ResolveKeys,
    CreateDroplet(CreateParams),
    RevokeKey { id: u32 },
    /// The creation has ended.
    Finish(Result<Created, CloudError>),
    /// The event answers nothing that was asked. Nothing has changed.
    Nothing,
}

/// What is to be done next, before the texts are filled in.
pub enum SpawnVerdict {
    ResolveKeys,
    /// Create the droplet, with these keys authorized.
    Create { ssh_keys: Seq<u32> },
    Revoke { id: u32 },
    /// End with the id of the new droplet, or with a failure.
    Finish(Result<u32, CloudError>),
    Nothing,
}

/// What a spawn ends in, given what came before the revocation of the
/// deploy key and how the revocation went. A failure of the revocation does
/// not hide an earlier failure; after a droplet was created it is the
/// failure that is reported.
pub open spec fn spec_spawn_result(
    outcome: Result<u32, CloudError>,
    revoked: Result<(), CloudError>,
) -> Result<u32, CloudError> {
    match (outcome, revoked) {
        (Ok(_), Err(e)) => Err(e),
        _ => outcome,
    }
}

/// The stage after `event` has come in, and what is to be done next.
pub open spec fn spec_step(state: DropletSpawn, event: SpawnEvent) -> (DropletSpawn, SpawnVerdict) {
    match (state, event) {
        (DropletSpawn::RegisteringKey { deploy_key }, SpawnEvent::KeyRegistered(Ok(id))) => (
            DropletSpawn::ResolvingKeys { deploy_key, deploy_key_id: id },
            SpawnVerdict::ResolveKeys,
        ),
        (DropletSpawn::RegisteringKey { deploy_key }, SpawnEvent::KeyRegistered(Err(e))) => (
            DropletSpawn::Finished,
            SpawnVerdict::Finish(Err(e)),
        ),
        (
            DropletSpawn::ResolvingKeys { deploy_key, deploy_key_id },
            SpawnEvent::KeysResolved(Ok(ids)),
        ) => (
            DropletSpawn::Creating { deploy_key, deploy_key_id },
            SpawnVerdict::Create { ssh_keys: ids@.push(deploy_key_id) },
        ),
        (
            DropletSpawn::ResolvingKeys { deploy_key, deploy_key_id },
            SpawnEvent::KeysResolved(Err(e)),
        ) => (
            DropletSpawn::Revoking { deploy_key, outcome: Err(e) },
            SpawnVerdict::Revoke { id: deploy_key_id },
        ),
        (
            DropletSpawn::Creating { deploy_key, deploy_key_id },
            SpawnEvent::DropletCreated(outcome),
        ) => (
            DropletSpawn::Revoking { deploy_key, outcome },
            SpawnVerdict::Revoke { id: deploy_key_id },
        ),
        (DropletSpawn::Revoking { deploy_key, outcome }, SpawnEvent::KeyRevoked(revoked)) => (
            DropletSpawn::Finished,
            SpawnVerdict::Finish(spec_spawn_result(outcome, revoked)),
        ),
        _ => (state, SpawnVerdict::Nothing),
    }
}

/// The deploy key that a spawn holds, until it has finished.
pub open spec fn spec_deploy_key(state: DropletSpawn) -> Option<DeployKey> {
    match state {
        DropletSpawn::RegisteringKey { deploy_key } => Some(deploy_key),
        DropletSpawn::ResolvingKeys { deploy_key, .. } => Some(deploy_key),
        DropletSpawn::Creating { deploy_key, .. } => Some(deploy_key),
        DropletSpawn::Revoking { deploy_key, .. } => Some(deploy_key),
        DropletSpawn::Finished => None,
    }
}

/// Whether `action` is what `verdict` asks for, with the texts filled in.
/// A new droplet is made in the region and of the size of the account, from
/// the image `docker-20-04`, with the tag of the service and with IPv6; its
/// name is not fixed.
pub open spec fn spec_carries_out(
    action: SpawnAction,
    verdict: SpawnVerdict,
    provider: DigitalOcean,
    deploy_key: Option<DeployKey>,
) -> bool {
    match verdict {
        SpawnVerdict::ResolveKeys => action == SpawnAction::ResolveKeys,
        SpawnVerdict::Create { ssh_keys } => {
            &&& action matches SpawnAction::CreateDroplet(params)
            &&& params.region == provider.region
            &&& params.size == provider.plan
            &&& params.tags@.len() == 1
            &&& params.tags@[0]@ == spec_service_tag()
            &&& params.image@ == "docker-20-04"@
            &&& params.ssh_keys@ == ssh_keys
            &&& params.ipv6
        },
        SpawnVerdict::Revoke { id } => action == (SpawnAction::RevokeKey { id }),
        SpawnVerdict::Finish(Ok(droplet)) => {
            &&& action matches SpawnAction::Finish(Ok(created))
            &&& created.id@ == spec_decimal(droplet as nat)
            &&& deploy_key matches Some(key)
            &&& created.auth == CreatedAuth::Ssh(key)
        },
        SpawnVerdict::Finish(Err(e)) => action == SpawnAction::Finish(Err(e)),
        SpawnVerdict::Nothing => action == SpawnAction::Nothing,
    }
}

impl DropletSpawn {
    /// The start of a spawn: the deploy key is registered under the name
    /// `Dispenser Deploy Key`.
    pub fn begin(deploy_key: DeployKey) -> (r: (DropletSpawn, SpawnAction))
        ensures
            r.0 == (DropletSpawn::RegisteringKey { deploy_key }),
            r.1 matches SpawnAction::RegisterKey { name, public_key } && name@
                == "Dispenser Deploy Key"@ && public_key@ == spec_deploy_key_line(deploy_key),
    {
        let action = SpawnAction::RegisterKey {
            name: String::from_str("Dispenser Deploy Key"),
            public_key: deploy_key_line(&deploy_key),
        };
        (DropletSpawn::RegisteringKey { deploy_key }, action)
    }

    /// Takes in what the provider answered and says what is to be asked
    /// next.
    pub fn step(self, provider: &DigitalOcean, event: SpawnEvent) -> (r: (DropletSpawn, SpawnAction))
        ensures
            r.0 == spec_step(self, event).0,
            spec_carries_out(r.1, spec_step(self, event).1, *provider, spec_deploy_key(self)),
    {
        match (self, event) {
            (DropletSpawn::RegisteringKey { deploy_key }, SpawnEvent::KeyRegistered(Ok(id))) => (
                DropletSpawn::ResolvingKeys { deploy_key, deploy_key_id: id },
                SpawnAction::ResolveKeys,
            ),
            (DropletSpawn::RegisteringKey { deploy_key }, SpawnEvent::KeyRegistered(Err(e))) => (
                DropletSpawn::Finished,
                SpawnAction::Finish(Err(e)),
            ),
            (
                DropletSpawn::ResolvingKeys { deploy_key, deploy_key_id },
                SpawnEvent::KeysResolved(Ok(ids)),
            ) => {
                let mut ssh_keys = ids;
                ssh_keys.push(deploy_key_id);
                let mut tags: Vec<String> = Vec::new();
                tags.push(String::from_str("spire"));
                let params = CreateParams {
                    name: fresh_name(),
                    region: provider.region.clone(),
                    size: provider.plan.clone(),
                    tags,
                    image: String::from_str("docker-20-04"),
                    ssh_keys,
                    ipv6: true,
                };
                (
                    DropletSpawn::Creating { deploy_key, deploy_key_id },
                    SpawnAction::CreateDroplet(params),
                )
            },
            (
                DropletSpawn::ResolvingKeys { deploy_key, deploy_key_id },
                SpawnEvent::KeysResolved(Err(e)),
            ) => (
                DropletSpawn::Revoking { deploy_key, outcome: Err(e) },
                SpawnAction::RevokeKey { id: deploy_key_id },
            ),
            (
                DropletSpawn::Creating { deploy_key, deploy_key_id },
                SpawnEvent::DropletCreated(outcome),
            ) => (
                DropletSpawn::Revoking { deploy_key, outcome },
                SpawnAction::RevokeKey { id: deploy_key_id },
            ),
            (DropletSpawn::Revoking { deploy_key, outcome }, SpawnEvent::KeyRevoked(revoked)) => {
                let action = match (outcome, revoked) {
                    (Ok(_), Err(e)) => SpawnAction::Finish(Err(e)),
                    (Ok(droplet), Ok(_)) => SpawnAction::Finish(
                        Ok(Created { id: decimal(droplet), auth: CreatedAuth::Ssh(deploy_key) }),
                    ),
                    (Err(e), _) => SpawnAction::Finish(Err(e)),
                };
                (DropletSpawn::Finished, action)
            },
            (state, _) => (state, SpawnAction::Nothing),
        }
    }
}

/// How often the deploy key is revoked over a run of events.
pub open spec fn spec_revocations(state: DropletSpawn, events: Seq<SpawnEvent>) -> nat
    decreases events.len(),
{
    if events.len() == 0 {
        0
    } else {
        let (next, verdict) = spec_step(state, events[0]);
        let here: nat = if verdict is Revoke {
            1
        } else {
            0
        };
        here + spec_revocations(next, events.drop_first())
    }
}

/// Once the revocation has been asked for, it is never asked for again.
pub proof fn lemma_no_second_revocation(state: DropletSpawn, events: Seq<SpawnEvent>)
    requires
        state is Revoking || state is Finished,
    ensures
        spec_revocations(state, events) == 0,
    decreases events.len(),
{
    if events.len() > 0 {
        lemma_no_second_revocation(spec_step(state, events[0]).0, events.drop_first());
    }
}

/// The deploy key is revoked as soon as the provider has answered the
/// request to create the droplet, whether a droplet was created or not, and
/// it is revoked exactly once: no later event leads to a second revocation.
pub proof fn law_deploy_key_revoked_once(
    state: DropletSpawn,
    created: Result<u32, CloudError>,
    later: Seq<SpawnEvent>,
)
    requires
        state is Creating,
    ensures
        spec_step(state, SpawnEvent::DropletCreated(created)).1 == (SpawnVerdict::Revoke {
            id: state->Creating_deploy_key_id,
        }),
        spec_revocations(state, seq![SpawnEvent::DropletCreated(created)] + later) == 1,
{
    let events = seq![SpawnEvent::DropletCreated(created)] + later;
    assert(events.drop_first() =~= later);
    lemma_no_second_revocation(spec_step(state, events[0]).0, later);
}

/// Over any run of events, from any stage, the deploy key is revoked at most
/// once; and a spawn that has registered its key does not finish without
/// having revoked it.
pub proof fn law_deploy_key_revoked_at_most_once(state: DropletSpawn, events: Seq<SpawnEvent>)
    ensures
        spec_revocations(state, events) <= 1,
        events.len() > 0 && spec_step(state, events[0]).0 is Finished && !(state is Finished)
            ==> state is Revoking || state is RegisteringKey,
    decreases events.len(),
{
    if events.len() > 0 {
        let (next, verdict) = spec_step(state, events[0]);
        if verdict is Revoke {
            lemma_no_second_revocation(next, events.drop_first());
        } else {
            law_deploy_key_revoked_at_most_once(next, events.drop_first());
        }
    }
}

} // verus!
