use gossip_bootstrap::bootstrap::{dial_first, locators_for, run_bootstrap, Bootstrap, BootstrapError};
use gossip_bootstrap::digest::{message_id, message_id_bytes};
use gossip_bootstrap::dispatcher::{classify, mesh_params, Dispatcher, EventClass, DEFAULT_PUBLISHER};
use gossip_bootstrap::identity::{derive_identity, seed_from_index};
use gossip_bootstrap::naming::{host_name_for, locator_for, parse_node_index, push_decimal, ConfigError, SERVICE_PORT};
use gossip_bootstrap::network::{GossipEvent, NameResolver, Overlay, OverlayEvent};
use gossip_bootstrap::sampler::PeerSampler;
use gossip_bootstrap::scheduler::{PublishOutcome, PublishScheduler};

/// An overlay that accepts dials to every locator except those listed, and
/// records what it was asked to do.
struct FakeOverlay {
    refused: Vec<String>,
    dialed: Vec<String>,
    peers: u64,
    publish_ok: bool,
    published: Vec<Vec<u8>>,
}

impl FakeOverlay {
    fn new(peers: u64) -> FakeOverlay {
        FakeOverlay { refused: Vec::new(), dialed: Vec::new(), peers, publish_ok: true, published: Vec::new() }
    }
}

impl Overlay for FakeOverlay {
    fn dial(&mut self, locator: &str) -> bool {
        self.dialed.push(locator.to_string());
        !self.refused.iter().any(|r| r == locator)
    }

    fn connected_peer_count(&self) -> u64 {
        self.peers
    }

    fn publish(&mut self, payload: &[u8]) -> bool {
        self.published.push(payload.to_vec());
        self.publish_ok
    }
}

/// Resolves `node<i>` to 10.0.0.<i>, except the names listed.
struct FakeResolver {
    unknown: Vec<String>,
    asked: Vec<String>,
}

impl FakeResolver {
    fn new() -> FakeResolver {
        FakeResolver { unknown: Vec::new(), asked: Vec::new() }
    }
}

impl NameResolver for FakeResolver {
    fn resolve(&mut self, host: &str) -> Vec<[u8; 4]> {
        self.asked.push(host.to_string());
        if self.unknown.iter().any(|u| u == host) {
            return Vec::new();
        }
        match parse_node_index(host) {
            Ok(i) => vec![[10, 0, 0, i as u8]],
            Err(_) => Vec::new(),
        }
    }
}

#[test]
fn host_name_and_locator_for_node2() {
    assert_eq!(parse_node_index("node2"), Ok(2));
    assert_eq!(host_name_for(2), "node2");
    assert_eq!(locator_for([10, 0, 0, 2], SERVICE_PORT), "/ip4/10.0.0.2/tcp/9000");
    assert_eq!(locator_for([192, 168, 255, 0], 80), "/ip4/192.168.255.0/tcp/80");
}

#[test]
fn host_name_of_large_index() {
    assert_eq!(host_name_for(0), "node0");
    assert_eq!(host_name_for(1234567890), "node1234567890");
    assert_eq!(host_name_for(u64::MAX), "node18446744073709551615");
    let mut s = String::from("x");
    push_decimal(&mut s, 907);
    assert_eq!(s, "x907");
}

#[test]
fn parse_node_index_cases() {
    assert_eq!(parse_node_index("node0"), Ok(0));
    assert_eq!(parse_node_index("node007"), Ok(7));
    assert_eq!(parse_node_index("node18446744073709551615"), Ok(u64::MAX));
    assert_eq!(parse_node_index("nodenode7"), Err(ConfigError::InvalidDigit));
    assert_eq!(parse_node_index("42"), Err(ConfigError::MissingPrefix));
    assert_eq!(parse_node_index("node+5"), Err(ConfigError::InvalidDigit));
    assert_eq!(parse_node_index("node"), Err(ConfigError::Empty));
    assert_eq!(parse_node_index(""), Err(ConfigError::MissingPrefix));
    assert_eq!(parse_node_index("nod"), Err(ConfigError::MissingPrefix));
    assert_eq!(parse_node_index("node+"), Err(ConfigError::InvalidDigit));
    assert_eq!(parse_node_index("nodex"), Err(ConfigError::InvalidDigit));
    assert_eq!(parse_node_index("node-1"), Err(ConfigError::InvalidDigit));
    assert_eq!(parse_node_index("node3 "), Err(ConfigError::InvalidDigit));
    assert_eq!(parse_node_index("host3"), Err(ConfigError::MissingPrefix));
    assert_eq!(parse_node_index("worker3"), Err(ConfigError::MissingPrefix));
    assert_eq!(parse_node_index("Node3"), Err(ConfigError::MissingPrefix));
    assert_eq!(parse_node_index("node18446744073709551616"), Err(ConfigError::Overflow));
}

#[test]
fn seed_is_little_endian_index_then_zeros() {
    let s = seed_from_index(0x0807060504030201);
    assert_eq!(&s[..8], &[1, 2, 3, 4, 5, 6, 7, 8]);
    assert!(s[8..].iter().all(|b| *b == 0));
    assert_eq!(seed_from_index(0), [0u8; 32]);
    let mut expected = [0u8; 32];
    expected[0] = 5;
    assert_eq!(seed_from_index(5), expected);
}

#[test]
fn identity_is_deterministic() {
    let a = derive_identity(5);
    let b = derive_identity(5);
    assert_eq!(a.index, 5);
    assert_eq!(a.seed, b.seed);
    assert_eq!(a.public_key, b.public_key);
    assert!(!a.public_key.is_empty());
    assert_ne!(a.public_key, a.seed.to_vec());
    assert_eq!(a.peer_id, b.peer_id);
    assert_ne!(a.peer_id, a.seed.to_vec());
    // An inlined Ed25519 key: identity multihash code, length, then the key encoding.
    assert_eq!(a.peer_id[0], 0);
    assert_eq!(&a.peer_id[2..], &a.public_key[..]);
}

#[test]
fn distinct_indices_give_distinct_identities() {
    let keys: Vec<Vec<u8>> = (0..16).map(|i| derive_identity(i).public_key).collect();
    for i in 0..keys.len() {
        for j in (i + 1)..keys.len() {
            assert_ne!(keys[i], keys[j]);
        }
    }
    assert_ne!(derive_identity(1).public_key, derive_identity(1 << 40).public_key);
    assert_ne!(derive_identity(1).peer_id, derive_identity(2).peer_id);
}

#[test]
fn sampler_rejects_self_and_repeats() {
    let mut s = PeerSampler::new(4, 0);
    assert_eq!(s.consider_draw(0), None);
    assert_eq!(s.consider_draw(8), None);
    assert_eq!(s.tried_count(), 0);
    assert_eq!(s.consider_draw(5), Some(1));
    assert_eq!(s.tried_count(), 1);
    assert_eq!(s.consider_draw(1), None);
    assert_eq!(s.tried_count(), 1);
    assert!(s.has_tried(1));
    assert!(!s.has_tried(2));
    assert_eq!(s.consider_draw(u64::MAX), Some(3));
    assert_eq!(s.tried_count(), 2);
}

#[test]
fn sampler_draws_each_other_index_once() {
    let mut s = PeerSampler::new(4, 2);
    let mut got = Vec::new();
    for k in 0..3 {
        let c = s.next_candidate(100_000).expect("a fresh candidate");
        assert_ne!(c, 2);
        assert!(c < 4);
        assert!(!got.contains(&c));
        got.push(c);
        assert_eq!(s.tried_count(), k + 1);
    }
    assert_eq!(s.next_candidate(1000), None);
    assert_eq!(s.tried_count(), 3);
}

#[test]
fn bootstrap_steps_on_given_draws() {
    let mut overlay = FakeOverlay::new(0);
    let mut resolver = FakeResolver::new();
    let mut b = Bootstrap::new(4, 0, 3);
    assert_eq!(b.step(&mut overlay, &mut resolver, 4), None);
    assert_eq!(b.step(&mut overlay, &mut resolver, 5), Some((1, true)));
    assert_eq!(b.step(&mut overlay, &mut resolver, 1), None);
    assert_eq!(b.connected(), 1);
    assert_eq!(b.step(&mut overlay, &mut resolver, 2), Some((2, true)));
    assert!(!b.is_complete());
    assert_eq!(b.step(&mut overlay, &mut resolver, 7), Some((3, true)));
    assert!(b.is_complete());
    assert_eq!(b.peers, vec![1, 2, 3]);
    assert_eq!(resolver.asked, vec!["node1", "node2", "node3"]);
    assert_eq!(
        overlay.dialed,
        vec!["/ip4/10.0.0.1/tcp/9000", "/ip4/10.0.0.2/tcp/9000", "/ip4/10.0.0.3/tcp/9000"]
    );
}

#[test]
fn bootstrap_failed_candidates_are_not_retried() {
    let mut overlay = FakeOverlay::new(0);
    overlay.refused.push("/ip4/10.0.0.2/tcp/9000".to_string());
    let mut resolver = FakeResolver::new();
    resolver.unknown.push("node3".to_string());
    let mut b = Bootstrap::new(5, 0, 2);
    assert_eq!(b.step(&mut overlay, &mut resolver, 2), Some((2, false)));
    assert_eq!(b.step(&mut overlay, &mut resolver, 3), Some((3, false)));
    assert_eq!(b.connected(), 0);
    assert_eq!(b.step(&mut overlay, &mut resolver, 2), None);
    assert_eq!(b.step(&mut overlay, &mut resolver, 3), None);
    assert_eq!(b.sampler.tried_count(), 2);
    assert_eq!(b.step(&mut overlay, &mut resolver, 4), Some((4, true)));
    assert_eq!(b.connected(), 1);
    assert_eq!(b.peers, vec![4]);
}

#[test]
fn run_bootstrap_reaches_target() {
    let mut overlay = FakeOverlay::new(0);
    let mut resolver = FakeResolver::new();
    let b = run_bootstrap(&mut overlay, &mut resolver, 4, 0, 3, 100_000).expect("bootstrap completes");
    assert_eq!(b.connected(), 3);
    let mut peers = b.peers.clone();
    peers.sort();
    assert_eq!(peers, vec![1, 2, 3]);
    assert_eq!(overlay.dialed.len(), 3);
}

#[test]
fn run_bootstrap_target_beyond_cluster_times_out() {
    let mut overlay = FakeOverlay::new(0);
    let mut resolver = FakeResolver::new();
    let r = run_bootstrap(&mut overlay, &mut resolver, 4, 0, 4, 10_000);
    assert!(matches!(r, Err(BootstrapError::Timeout { connected: 3 })));
    let mut overlay = FakeOverlay::new(0);
    let r = run_bootstrap(&mut overlay, &mut resolver, 4, 1, 2, 0);
    assert!(matches!(r, Err(BootstrapError::Timeout { connected: 0 })));
}

#[test]
fn run_bootstrap_with_zero_target_is_immediate() {
    let mut overlay = FakeOverlay::new(0);
    let mut resolver = FakeResolver::new();
    let b = run_bootstrap(&mut overlay, &mut resolver, 1, 0, 0, 0).expect("nothing to do");
    assert_eq!(b.connected(), 0);
    assert!(overlay.dialed.is_empty());
}

#[test]
fn scheduler_tick_arms_on_one() {
    let mut s = PublishScheduler::new(150, 1000, false);
    assert!(!s.is_due(1100));
    assert!(!s.tick(1100, 1));
    assert!(!s.eligible);
    assert_eq!(s.last_checked_ms, 1000);
    assert!(!s.tick(1150, 2));
    assert!(!s.eligible);
    assert_eq!(s.last_checked_ms, 1150);
    assert!(!s.tick(1300, 3));
    assert!(!s.eligible);
    assert!(s.tick(1450, 1));
    assert!(s.eligible);
    assert!(!s.tick(1600, 2));
    assert!(s.eligible);
    assert!(!s.tick(10, 1));
    assert_eq!(s.last_checked_ms, 1600);
}

#[test]
fn scheduler_arms_about_one_tick_in_three() {
    let n: u64 = 30_000;
    let mut s = PublishScheduler::new(700, 0, false);
    let mut armed: u64 = 0;
    for k in 1..=n {
        if s.on_timer(k * 700) {
            armed += 1;
        }
        s.eligible = false;
    }
    assert!(armed > 9_000 && armed < 11_000, "armed {} times", armed);
}

#[test]
fn flag_clear_after_publish_success_and_failure() {
    let mut overlay = FakeOverlay::new(5);
    let mut s = PublishScheduler::new(150, 0, true);
    let r = s.attempt_publish(&mut overlay, 0, 0, 3, 32);
    assert!(matches!(r, PublishOutcome::Published { .. }));
    assert!(!s.eligible);
    overlay.publish_ok = false;
    s.eligible = true;
    let r = s.attempt_publish(&mut overlay, 0, 0, 3, 32);
    assert!(matches!(r, PublishOutcome::Failed { .. }));
    assert!(!s.eligible);
    assert_eq!(overlay.published.len(), 2);
}

#[test]
fn publish_only_at_threshold() {
    let mut below = FakeOverlay::new(2);
    let mut s = PublishScheduler::new(150, 0, true);
    assert_eq!(s.attempt_publish(&mut below, 0, 0, 3, 16), PublishOutcome::Skipped);
    assert!(below.published.is_empty());
    assert!(s.eligible);
    let mut at = FakeOverlay::new(3);
    assert!(matches!(s.attempt_publish(&mut at, 0, 0, 3, 16), PublishOutcome::Published { .. }));
    assert_eq!(at.published.len(), 1);
    assert_eq!(at.published[0].len(), 16);
    let mut other = FakeOverlay::new(10);
    let mut t = PublishScheduler::new(150, 0, true);
    assert_eq!(t.attempt_publish(&mut other, 1, 0, 3, 16), PublishOutcome::Skipped);
    assert!(other.published.is_empty());
}

#[test]
fn published_id_is_digest_of_payload() {
    let mut overlay = FakeOverlay::new(1);
    let mut s = PublishScheduler::new(150, 0, true);
    let payload = b"hello".to_vec();
    let r = s.publish_payload(&mut overlay, &payload, 0, 0, 1, 1);
    assert_eq!(
        r,
        PublishOutcome::Published {
            message_id: "2cf24dba5fb0a30e26e83b2ac5b9e29e1b161e5c1fa7425e73043362938b9824".to_string()
        }
    );
    assert_eq!(overlay.published, vec![payload]);
}

#[test]
fn message_id_of_known_input() {
    assert_eq!(
        message_id(b""),
        "e3b0c44298fc1c149afbf4c8996fb92427ae41e4649b934ca495991b7852b855"
    );
    let raw = message_id_bytes(b"hello");
    assert_eq!(raw.len(), 32);
    assert_eq!(raw[0], 0x2c);
    assert_eq!(raw[31], 0x24);
}

#[test]
fn cluster_of_four_end_to_end() {
    let payload_size: usize = 128;
    let mut nodes_published = Vec::new();
    for node in 0..4u64 {
        let mut overlay = FakeOverlay::new(0);
        let mut resolver = FakeResolver::new();
        let b = run_bootstrap(&mut overlay, &mut resolver, 4, node, 3, 100_000).expect("bootstrap completes");
        assert_eq!(b.connected(), 3);
        assert!(!b.peers.contains(&node));
        overlay.peers = 3;
        let scheduler = PublishScheduler::new(150, 0, true);
        let mut d = Dispatcher::new(node, DEFAULT_PUBLISHER, 3, payload_size, scheduler);
        let mut now: u64 = 0;
        for _ in 0..50 {
            now += 150;
            let it = d.iterate(&mut overlay, Some(OverlayEvent::Other), now);
            assert_eq!(it.event, Some(EventClass::Unclassified));
            if overlay.published.len() == 1 && node == 0 {
                break;
            }
        }
        nodes_published.push(overlay.published.clone());
    }
    assert_eq!(nodes_published[0].len(), 1);
    assert_eq!(nodes_published[0][0].len(), payload_size);
    for node in 1..4 {
        assert!(nodes_published[node].is_empty());
    }
}

#[test]
fn dispatcher_publishes_once_per_arming() {
    let mut overlay = FakeOverlay::new(3);
    let scheduler = PublishScheduler::new(1_000_000, 0, true);
    let mut d = Dispatcher::new(0, 0, 3, 8, scheduler);
    let first = d.iterate(&mut overlay, None, 10);
    assert!(matches!(first.publish, PublishOutcome::Published { .. }));
    assert_eq!(first.event, None);
    for t in 0..20u64 {
        let it = d.iterate(&mut overlay, Some(OverlayEvent::NewListenAddress), 20 + t);
        assert_eq!(it.publish, PublishOutcome::Skipped);
        assert!(!it.armed);
    }
    assert_eq!(overlay.published.len(), 1);
}

#[test]
fn classify_events() {
    assert_eq!(classify(OverlayEvent::NewListenAddress), EventClass::ListenAddress);
    assert_eq!(classify(OverlayEvent::Behaviour(GossipEvent::Message)), EventClass::Message);
    assert_eq!(classify(OverlayEvent::Behaviour(GossipEvent::Subscribed)), EventClass::Subscription);
    assert_eq!(classify(OverlayEvent::Behaviour(GossipEvent::Unsubscribed)), EventClass::Subscription);
    assert_eq!(classify(OverlayEvent::Behaviour(GossipEvent::SlowPeer)), EventClass::PeerTrouble);
    assert_eq!(classify(OverlayEvent::Behaviour(GossipEvent::Unsupported)), EventClass::PeerTrouble);
    assert_eq!(classify(OverlayEvent::Other), EventClass::Unclassified);
}

#[test]
fn mesh_params_bounds() {
    let p = mesh_params(8).expect("valid degree");
    assert_eq!((p.mesh_n, p.mesh_n_low, p.mesh_n_high), (8, 6, 12));
    let p = mesh_params(2).expect("valid degree");
    assert_eq!((p.mesh_n, p.mesh_n_low, p.mesh_n_high), (2, 0, 6));
    assert!(mesh_params(1).is_none());
    assert!(mesh_params(0).is_none());
    assert!(mesh_params(usize::MAX - 3).is_none());
}

#[test]
fn burst_publishes_count_times_from_publisher_only() {
    let mut overlay = FakeOverlay::new(0);
    let mut d = Dispatcher::new(0, 0, 0, 24, PublishScheduler::new(700, 0, false));
    let out = d.publish_burst(&mut overlay, 3);
    assert_eq!(out.len(), 3);
    assert!(out.iter().all(|o| matches!(o, PublishOutcome::Published { .. })));
    assert_eq!(overlay.published.len(), 3);
    assert!(overlay.published.iter().all(|p| p.len() == 24));
    assert!(!d.scheduler.eligible);

    let mut quiet = FakeOverlay::new(9);
    let mut e = Dispatcher::new(2, 0, 0, 24, PublishScheduler::new(700, 0, false));
    let out = e.publish_burst(&mut quiet, 4);
    assert_eq!(out, vec![PublishOutcome::Skipped; 4]);
    assert!(quiet.published.is_empty());
}

#[test]
fn locators_in_address_order() {
    let addrs = vec![[10, 0, 0, 7], [172, 16, 0, 1]];
    assert_eq!(
        locators_for(&addrs, SERVICE_PORT),
        vec!["/ip4/10.0.0.7/tcp/9000".to_string(), "/ip4/172.16.0.1/tcp/9000".to_string()]
    );
    assert!(locators_for(&Vec::new(), SERVICE_PORT).is_empty());
}

#[test]
fn dial_stops_at_first_accepted() {
    let mut overlay = FakeOverlay::new(0);
    overlay.refused.push("/ip4/10.0.0.7/tcp/9000".to_string());
    let locs = locators_for(&vec![[10, 0, 0, 7], [10, 0, 0, 8], [10, 0, 0, 9]], SERVICE_PORT);
    assert_eq!(dial_first(&mut overlay, &locs), Some(1));
    assert_eq!(overlay.dialed, vec!["/ip4/10.0.0.7/tcp/9000", "/ip4/10.0.0.8/tcp/9000"]);
    let mut none = FakeOverlay::new(0);
    none.refused = locs.clone();
    assert_eq!(dial_first(&mut none, &locs), None);
    assert_eq!(none.dialed.len(), 3);
}

#[test]
fn spaced_ticks_arm_once_per_roll_of_one() {
    let rolls: Vec<u64> = vec![2, 1, 3, 1, 1, 2, 3, 3, 1];
    let mut s = PublishScheduler::new(150, 0, false);
    let mut armed = 0;
    for (k, roll) in rolls.iter().enumerate() {
        if s.tick(150 * (k as u64 + 1), *roll) {
            armed += 1;
        }
    }
    assert_eq!(armed, 4);
    assert_eq!(s.last_checked_ms, 150 * rolls.len() as u64);
    assert!(s.eligible);
}

#[test]
fn iterate_publishes_configured_size_when_allowed() {
    let mut overlay = FakeOverlay::new(0);
    let mut d = Dispatcher::new(0, 0, 0, 77, PublishScheduler::new(150, 0, true));
    let it = d.iterate(&mut overlay, Some(OverlayEvent::Behaviour(GossipEvent::Message)), 10);
    assert_eq!(it.event, Some(EventClass::Message));
    assert!(!it.armed);
    assert_eq!(d.scheduler.last_checked_ms, 0);
    match it.publish {
        PublishOutcome::Published { message_id: id } => assert_eq!(id, message_id(&overlay.published[0])),
        other => panic!("expected a publication, got {:?}", other),
    }
    assert_eq!(overlay.published.len(), 1);
    assert_eq!(overlay.published[0].len(), 77);
    assert!(!d.scheduler.eligible);
}
