use dispenser::cloud::digitalocean::{
    deploy_key_line, find_key, first_public, get_ssh_key_id, has_tag, list, wait_for_ip,
    CreateParams, DigitalOcean, Droplet, DropletSpawn, KeyLookup, Network, NetworkKind, Networks,
    SpawnAction, SpawnEvent, SshKey,
};
use dispenser::cloud::{
    CloudError, Created, CreatedAuth, DeployKey, IpAddress, IpPoll, IpWait, NetworkError,
    Server, Timestamp, IP_POLL_MILLIS,
};

fn network(ip: u32, kind: NetworkKind) -> Network {
    Network { ip_address: IpAddress::V4(ip), gateway: "10.0.0.1".to_string(), kind }
}

fn network6(ip: u128, kind: NetworkKind) -> Network {
    Network { ip_address: IpAddress::V6(ip), gateway: "fe80::1".to_string(), kind }
}

fn droplet(id: u32, v4: Vec<Network>, v6: Vec<Network>, tags: &[&str]) -> Droplet {
    Droplet {
        id,
        memory: 2048,
        networks: Networks { v4, v6 },
        vcpus: 2,
        created_at: Timestamp { secs: 1_704_067_200, nanos: 0 },
        tags: tags.iter().map(|t| t.to_string()).collect(),
    }
}

fn provider() -> DigitalOcean {
    DigitalOcean::new("token".to_string(), "ams3".to_string(), "s-2vcpu-2gb".to_string())
}

fn deploy_key() -> DeployKey {
    DeployKey {
        algorithm: "ssh-ed25519".to_string(),
        public_key: "AAAAC3Nz".to_string(),
        secret: vec![9; 64],
    }
}

fn key(id: u32, public_key: &str) -> SshKey {
    SshKey {
        id,
        fingerprint: "aa:bb".to_string(),
        public_key: public_key.to_string(),
        name: "a key".to_string(),
    }
}

#[test]
fn provider_keeps_its_settings() {
    let p = provider();
    assert_eq!(p.token, "token");
    assert_eq!(p.region, "ams3");
    assert_eq!(p.plan, "s-2vcpu-2gb");
}

#[test]
fn first_public_network_is_chosen() {
    let networks = vec![
        network(0x0a00_0005, NetworkKind::Private),
        network(0x0102_0304, NetworkKind::Public),
        network(0x0506_0708, NetworkKind::Public),
    ];
    assert_eq!(first_public(&networks), Some(IpAddress::V4(0x0102_0304)));
    assert_eq!(first_public(&vec![network(1, NetworkKind::Private)]), None);
    assert_eq!(first_public(&vec![]), None);
}

#[test]
fn tags_are_compared_letter_for_letter() {
    let tags = vec!["game".to_string(), "spire".to_string()];
    assert!(has_tag(&tags, "spire"));
    assert!(!has_tag(&tags, "Spire"));
    assert!(!has_tag(&tags, "spir"));
    assert!(!has_tag(&vec![], "spire"));
}

#[test]
fn droplet_record() {
    let d = droplet(
        305,
        vec![network(0x0a00_0005, NetworkKind::Private), network(0x0102_0304, NetworkKind::Public)],
        vec![network6(0x2001, NetworkKind::Public)],
        &["spire"],
    );
    assert_eq!(
        d.server(),
        Server {
            id: "305".to_string(),
            created: Timestamp { secs: 1_704_067_200, nanos: 0 },
            ip: IpAddress::V4(0x0102_0304),
            ip_v6: Some(IpAddress::V6(0x2001)),
        }
    );
}

#[test]
fn droplet_without_public_address_is_recorded_as_unspecified() {
    let d = droplet(1, vec![network(5, NetworkKind::Private)], vec![], &[]);
    let server = d.server();
    assert_eq!(server.ip, IpAddress::V4(0));
    assert!(server.ip.is_unspecified());
    assert_eq!(server.ip_v6, None);
}

#[test]
fn only_tagged_droplets_are_listed() {
    let droplets = vec![
        droplet(1, vec![network(1, NetworkKind::Public)], vec![], &["web"]),
        droplet(2, vec![network(2, NetworkKind::Public)], vec![], &["x", "spire"]),
        droplet(3, vec![], vec![], &[]),
        droplet(4, vec![network(4, NetworkKind::Public)], vec![], &["spire"]),
    ];
    let servers = list(&droplets);
    assert_eq!(servers.len(), 2);
    assert_eq!(servers[0].id, "2");
    assert_eq!(servers[0].ip, IpAddress::V4(2));
    assert_eq!(servers[1].id, "4");
    assert!(droplets[1].is_ours());
    assert!(!droplets[0].is_ours());
}

#[test]
fn empty_account_lists_nothing() {
    assert_eq!(list(&vec![]), Vec::<Server>::new());
}

#[test]
fn wait_for_ip_with_a_provider_that_needs_three_looks() {
    // The provider shows no public address on the first three looks.
    let without = droplet(7, vec![network(5, NetworkKind::Private)], vec![], &["spire"]);
    let with = droplet(7, vec![network(0x0102_0304, NetworkKind::Public)], vec![], &["spire"]);
    let looks = vec![without.clone(), without.clone(), without, with];
    let mut wait = IpWait::new();
    let mut ready = None;
    for look in looks {
        assert!(ready.is_none());
        let step = wait_for_ip(Ok(look));
        wait.record(&step);
        match step {
            IpPoll::Ready(server) => ready = Some(server),
            IpPoll::RetryAfter { millis } => assert_eq!(millis, 500),
            IpPoll::Fail(e) => panic!("{:?}", e),
        }
    }
    assert_eq!(ready.unwrap().ip, IpAddress::V4(0x0102_0304));
    assert_eq!(wait, IpWait { polls: 4, waited_millis: 1500 });
    assert_eq!(IP_POLL_MILLIS, 500);
}

#[test]
fn wait_for_ip_ends_when_the_provider_cannot_be_asked() {
    assert_eq!(
        wait_for_ip(Err(CloudError::Unauthorized)),
        IpPoll::Fail(CloudError::Unauthorized)
    );
}

#[test]
fn wait_tally_is_capped() {
    let mut wait = IpWait { polls: u64::MAX, waited_millis: u64::MAX - 1 };
    wait.record(&IpPoll::RetryAfter { millis: 500 });
    assert_eq!(wait, IpWait { polls: u64::MAX, waited_millis: u64::MAX });
}

#[test]
fn key_is_found_by_its_exact_text() {
    let keys = vec![key(1, "ssh-rsa AAA a"), key(2, "ssh-rsa BBB b"), key(3, "ssh-rsa BBB b")];
    assert_eq!(find_key(&keys, "ssh-rsa BBB b"), Some(2));
    assert_eq!(find_key(&keys, "ssh-rsa BBB c"), None);
    assert_eq!(find_key(&vec![], "ssh-rsa BBB b"), None);
    assert_eq!(get_ssh_key_id(&keys, "ssh-rsa AAA a"), KeyLookup::Found(1));
    assert_eq!(
        get_ssh_key_id(&keys, "ssh-rsa CCC c"),
        KeyLookup::Register {
            name: "Dispenser Key".to_string(),
            public_key: "ssh-rsa CCC c".to_string(),
        }
    );
}

#[test]
fn deploy_key_line_text() {
    assert_eq!(deploy_key_line(&deploy_key()), "ssh-ed25519 AAAAC3Nz dispenser-deploy");
}

fn check_params(params: &CreateParams, keys: &[u32]) {
    assert_eq!(params.region, "ams3");
    assert_eq!(params.size, "s-2vcpu-2gb");
    assert_eq!(params.tags, vec!["spire".to_string()]);
    assert_eq!(params.image, "docker-20-04");
    assert_eq!(params.ssh_keys, keys.to_vec());
    assert!(params.ipv6);
    // Two words, joined by a hyphen.
    assert_eq!(params.name.split('-').count(), 2);
    assert!(params.name.split('-').all(|word| !word.is_empty()));
}

/// Runs a spawn against a provider that answers as told, and counts the
/// requests.
fn run_spawn(
    register: Result<u32, CloudError>,
    resolve: Result<Vec<u32>, CloudError>,
    create: Result<u32, CloudError>,
    revoke: Result<(), CloudError>,
) -> (Result<Created, CloudError>, Vec<u32>, u32) {
    let p = provider();
    let mut revoked = vec![];
    let mut creates = 0;
    let (mut state, mut action) = DropletSpawn::begin(deploy_key());
    loop {
        let event = match action {
            SpawnAction::RegisterKey { name, public_key } => {
                assert_eq!(name, "Dispenser Deploy Key");
                assert_eq!(public_key, "ssh-ed25519 AAAAC3Nz dispenser-deploy");
                SpawnEvent::KeyRegistered(register.clone())
            }
            SpawnAction::ResolveKeys => SpawnEvent::KeysResolved(resolve.clone()),
            SpawnAction::CreateDroplet(params) => {
                creates += 1;
                let mut keys = resolve.clone().unwrap();
                keys.push(register.clone().unwrap());
                check_params(&params, &keys);
                SpawnEvent::DropletCreated(create.clone())
            }
            SpawnAction::RevokeKey { id } => {
                revoked.push(id);
                SpawnEvent::KeyRevoked(revoke.clone())
            }
            SpawnAction::Finish(outcome) => {
                assert_eq!(state, DropletSpawn::Finished);
                return (outcome, revoked, creates);
            }
            SpawnAction::Nothing => panic!("the spawn asked for nothing"),
        };
        let (next, asked) = state.step(&p, event);
        state = next;
        action = asked;
    }
}

#[test]
fn deploy_key_is_revoked_once_after_a_successful_create() {
    let (outcome, revoked, creates) = run_spawn(Ok(77), Ok(vec![5, 6]), Ok(4242), Ok(()));
    assert_eq!(
        outcome,
        Ok(Created { id: "4242".to_string(), auth: CreatedAuth::Ssh(deploy_key()) })
    );
    assert_eq!(revoked, vec![77]);
    assert_eq!(creates, 1);
}

#[test]
fn deploy_key_is_revoked_once_after_a_failed_create() {
    let (outcome, revoked, creates) =
        run_spawn(Ok(77), Ok(vec![]), Err(CloudError::Unauthorized), Ok(()));
    assert_eq!(outcome, Err(CloudError::Unauthorized));
    assert_eq!(revoked, vec![77]);
    assert_eq!(creates, 1);
}

#[test]
fn failed_revocation_does_not_hide_a_failed_create() {
    let (outcome, revoked, _) = run_spawn(
        Ok(77),
        Ok(vec![]),
        Err(CloudError::Network(NetworkError("reset".to_string()))),
        Err(CloudError::ServerNotFound),
    );
    assert_eq!(outcome, Err(CloudError::Network(NetworkError("reset".to_string()))));
    assert_eq!(revoked, vec![77]);
}

#[test]
fn failed_revocation_after_a_successful_create_is_reported() {
    let (outcome, revoked, creates) =
        run_spawn(Ok(77), Ok(vec![1]), Ok(4242), Err(CloudError::Unauthorized));
    assert_eq!(outcome, Err(CloudError::Unauthorized));
    assert_eq!(revoked, vec![77]);
    assert_eq!(creates, 1);
}

#[test]
fn deploy_key_is_revoked_when_the_configured_keys_cannot_be_resolved() {
    let (outcome, revoked, creates) =
        run_spawn(Ok(77), Err(CloudError::StartTimeout), Ok(1), Ok(()));
    assert_eq!(outcome, Err(CloudError::StartTimeout));
    assert_eq!(revoked, vec![77]);
    assert_eq!(creates, 0);
}

#[test]
fn nothing_is_revoked_when_the_deploy_key_was_not_registered() {
    let (outcome, revoked, creates) =
        run_spawn(Err(CloudError::Unauthorized), Ok(vec![]), Ok(1), Ok(()));
    assert_eq!(outcome, Err(CloudError::Unauthorized));
    assert_eq!(revoked, Vec::<u32>::new());
    assert_eq!(creates, 0);
}

#[test]
fn spawn_event_out_of_turn_changes_nothing() {
    let p = provider();
    let (state, _) = DropletSpawn::begin(deploy_key());
    let (state, action) = state.step(&p, SpawnEvent::KeyRevoked(Ok(())));
    assert_eq!(state, DropletSpawn::RegisteringKey { deploy_key: deploy_key() });
    assert_eq!(action, SpawnAction::Nothing);
    let (state, action) = DropletSpawn::Finished.step(&p, SpawnEvent::DropletCreated(Ok(1)));
    assert_eq!(state, DropletSpawn::Finished);
    assert_eq!(action, SpawnAction::Nothing);
}
