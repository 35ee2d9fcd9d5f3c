use quic_p2p::addr::{Ip, NodeAddr};
use quic_p2p::api::QuicP2p;
use quic_p2p::bind::{on_bind_failure, on_fallback_bind_failure};
use quic_p2p::cache::BootstrapCache;
use quic_p2p::config::{
    unwrap_config_or_default, Config, DEFAULT_IDLE_TIMEOUT_MSEC, DEFAULT_KEEP_ALIVE_INTERVAL_MSEC,
    DEFAULT_MAX_ALLOWED_MSG_SIZE, DEFAULT_PORT_TO_TRY,
};
use quic_p2p::connection::Connection;
use quic_p2p::error::Error;
use std::collections::VecDeque;

fn addr(d: u8, port: u16) -> NodeAddr {
    NodeAddr::new(Ip::V4(127, 0, 0, d), port)
}

#[test]
fn default_construction_uses_documented_defaults() {
    let q = QuicP2p::new().unwrap();
    assert_eq!(q.local_addr, NodeAddr::new(Ip::V4(0, 0, 0, 0), DEFAULT_PORT_TO_TRY));
    assert_eq!(q.local_addr.port, 12000);
    assert!(q.allow_random_port);
    assert_eq!(q.max_msg_size, DEFAULT_MAX_ALLOWED_MSG_SIZE);
    assert_eq!(q.max_msg_size, 500 * 1024 * 1024);
    assert_eq!(q.endpoint_cfg.idle_timeout_msec, DEFAULT_IDLE_TIMEOUT_MSEC);
    assert_eq!(q.endpoint_cfg.keep_alive_interval_msec, DEFAULT_KEEP_ALIVE_INTERVAL_MSEC);
    assert_eq!(q.client_cfg.idle_timeout_msec, DEFAULT_IDLE_TIMEOUT_MSEC);
    assert_eq!(q.client_cfg.keep_alive_interval_msec, DEFAULT_KEEP_ALIVE_INTERVAL_MSEC);
    assert!(q.bootstrap_cache.peers.is_empty());
    assert!(q.bootstrap_cache.hard_coded_contacts.is_empty());
}

#[test]
fn missing_config_resolves_to_default() {
    let c = unwrap_config_or_default(None).unwrap();
    assert!(c.port.is_none());
    assert!(c.ip.is_none());
    assert!(c.max_msg_size_allowed.is_none());
    assert!(c.idle_timeout_msec.is_none());
    assert!(c.keep_alive_interval_msec.is_none());
    assert!(c.bootstrap_cache_dir.is_none());
    assert!(c.hard_coded_contacts.is_empty());

    let mut supplied = Config::default();
    supplied.port = Some(7);
    let r = unwrap_config_or_default(Some(supplied)).unwrap();
    assert_eq!(r.port, Some(7));
}

#[test]
fn explicit_settings_override_defaults() {
    let mut cfg = Config::default();
    cfg.port = Some(7000);
    cfg.ip = Some(Ip::V4(10, 0, 0, 2));
    cfg.max_msg_size_allowed = Some(2048);
    cfg.idle_timeout_msec = Some(5000);
    cfg.keep_alive_interval_msec = Some(1000);
    let q = QuicP2p::with_config(Some(cfg), VecDeque::new(), true).unwrap();
    assert_eq!(q.local_addr, NodeAddr::new(Ip::V4(10, 0, 0, 2), 7000));
    assert!(!q.allow_random_port);
    assert_eq!(q.max_msg_size, 2048);
    assert_eq!(q.endpoint_cfg.idle_timeout_msec, 5000);
    assert_eq!(q.endpoint_cfg.keep_alive_interval_msec, 1000);
    assert_eq!(q.client_cfg.idle_timeout_msec, 5000);
    assert_eq!(q.client_cfg.keep_alive_interval_msec, 1000);
}

#[test]
fn pinned_port_occupied_fails_with_configuration_error() {
    let mut cfg = Config::default();
    cfg.port = Some(9000);
    let q = QuicP2p::with_config(Some(cfg), VecDeque::new(), true).unwrap();
    assert_eq!(q.local_addr.port, 9000);
    assert!(!q.allow_random_port);
    // The literal bind failed: with a pinned port there is no fallback.
    let next = on_bind_failure(q.local_addr, q.allow_random_port);
    assert_eq!(next, Err(Error::Configuration { port: 9000 }));
}

#[test]
fn unpinned_port_occupied_retries_on_ephemeral_port() {
    let q = QuicP2p::new().unwrap();
    assert!(q.allow_random_port);
    // The literal bind failed: the plan is a retry on the same IP,
    // port zero, so the OS assigns an ephemeral port.
    let next = on_bind_failure(q.local_addr, q.allow_random_port);
    assert_eq!(next, Ok(NodeAddr::new(Ip::V4(0, 0, 0, 0), 0)));
}

#[test]
fn fallback_bind_failure_is_endpoint_error() {
    assert_eq!(on_fallback_bind_failure(), Error::Endpoint);
}

#[test]
fn candidates_are_reversed_peers_then_contacts() {
    let a = addr(1, 9001);
    let b = addr(2, 9002);
    let c = addr(3, 9003);
    let h1 = addr(9, 9100);
    let h2 = addr(8, 9200);

    let mut cache = BootstrapCache::new(vec![h1, h2]);
    cache.add_peer(a);
    cache.add_peer(b);
    cache.add_peer(c);
    assert_eq!(cache.candidates(), vec![c, b, a, h1, h2]);

    // The cached prefix is unaffected by the contacts' own order.
    let mut other = BootstrapCache::new(vec![h2, h1]);
    other.add_peer(a);
    other.add_peer(b);
    other.add_peer(c);
    assert_eq!(other.candidates(), vec![c, b, a, h2, h1]);
    assert_eq!(&cache.candidates()[..3], &other.candidates()[..3]);
}

#[test]
fn extend_keeps_cached_peers_replace_discards_them() {
    let old = addr(1, 1);
    let new1 = addr(2, 2);
    let new2 = addr(3, 3);

    let mut kept = BootstrapCache::new(Vec::new());
    kept.add_peer(old);
    let mut more = VecDeque::new();
    more.push_back(new1);
    more.push_back(new2);
    kept.extend_peers(more);
    assert_eq!(kept.peers(), &VecDeque::from(vec![old, new1, new2]));

    let mut replaced = BootstrapCache::new(Vec::new());
    replaced.add_peer(old);
    let mut fresh = VecDeque::new();
    fresh.push_back(new1);
    replaced.replace_peers(fresh);
    assert_eq!(replaced.peers(), &VecDeque::from(vec![new1]));
}

#[test]
fn bootstrap_with_no_candidates_fails() {
    let mut q = QuicP2p::new().unwrap();
    assert_eq!(q.bootstrap_candidates().len(), 0);
    let r = q.complete_bootstrap(Vec::new());
    assert_eq!(r, Err(Error::BootstrapFailure));
}

#[test]
fn bootstrap_adopts_first_success_and_updates_local_addr() {
    let mut q = QuicP2p::new().unwrap();
    let winner_peer = addr(7, 9001);
    let winner_bound = NodeAddr::new(Ip::V4(0, 0, 0, 0), 54321);
    let winner = Connection::new(11, winner_peer, q.max_msg_size);
    let later = Connection::new(12, addr(8, 9002), q.max_msg_size);
    let later_bound = NodeAddr::new(Ip::V4(0, 0, 0, 0), 54322);

    let outcomes = vec![None, Some((winner, winner_bound)), Some((later, later_bound))];
    let got = q.complete_bootstrap(outcomes).unwrap();
    assert_eq!(got, winner);
    assert_eq!(got.peer_addr, winner_peer);
    assert_eq!(q.local_addr, winner_bound);
}

#[test]
fn bootstrap_with_only_failures_reports_aggregate_failure() {
    let mut q = QuicP2p::new().unwrap();
    let before = q.local_addr;
    let r = q.complete_bootstrap(vec![None, None, None]);
    assert_eq!(r, Err(Error::BootstrapFailure));
    assert_eq!(q.local_addr, before);
}

#[test]
fn scenario_bootstrap_to_single_cached_listener() {
    // max_msg_size 1024, no pinned port, no hard-coded contacts, one
    // cached peer at 127.0.0.1:9001 where a listener is running.
    let mut cfg = Config::default();
    cfg.max_msg_size_allowed = Some(1024);
    let peer = NodeAddr::new(Ip::V4(127, 0, 0, 1), 9001);
    let mut nodes = VecDeque::new();
    nodes.push_back(peer);
    let mut q = QuicP2p::with_config(Some(cfg), nodes, true).unwrap();
    assert!(q.allow_random_port);
    assert_eq!(q.max_msg_size, 1024);
    assert_eq!(q.bootstrap_candidates(), vec![peer]);

    // The racing collaborator connects to the only candidate and
    // hands back the session it established.
    let conn = Connection::new(1, peer, q.max_msg_size);
    let bound = NodeAddr::new(Ip::V4(127, 0, 0, 1), 50001);
    let got = q.complete_bootstrap(vec![Some((conn, bound))]).unwrap();
    assert_eq!(got.peer_addr, peer);
    assert_eq!(got.max_msg_size, 1024);
    assert_eq!(q.local_addr, bound);
}

#[test]
fn our_endpoint_reports_local_addr() {
    let q = QuicP2p::new().unwrap();
    assert_eq!(q.our_endpoint(), Ok(q.local_addr));
}

#[test]
fn errors_carry_their_context() {
    assert_eq!(Error::Connect { peer: addr(1, 2) }, Error::Connect { peer: addr(1, 2) });
    assert_ne!(Error::Connect { peer: addr(1, 2) }, Error::Connect { peer: addr(1, 3) });
    assert_ne!(Error::Closed, Error::Endpoint);
    assert_ne!(
        Error::MessageTooLarge { size: 10, max: 5 },
        Error::MessageTooLarge { size: 11, max: 5 }
    );
}
