use vstd::prelude::*;
use std::collections::VecDeque;
use crate::addr::{Ip, NodeAddr};
use crate::cache::{candidate_seq, BootstrapCache};
use crate::config::{
    resolved_allow_random_port, resolved_idle_timeout, resolved_ip,
    resolved_keep_alive_interval, resolved_max_msg_size, resolved_port, unwrap_config_or_default,
    Config, DEFAULT_IDLE_TIMEOUT_MSEC, DEFAULT_KEEP_ALIVE_INTERVAL_MSEC,
    DEFAULT_MAX_ALLOWED_MSG_SIZE, DEFAULT_PORT_TO_TRY,
};
use crate::connection::Connection;
use crate::error::Error;
use crate::params::{new_client_cfg, new_our_cfg, ClientParams, ServerParams};

verus! {

/// The main instance: resolved local endpoint policy, transport
/// parameters for both roles, and the peer cache that feeds
/// bootstrap.
#[derive(Clone, Debug)]
pub struct QuicP2p {
    /// The address binding requests first; a successful bootstrap
    /// updates it to whatever the winning attempt actually bound.
    pub local_addr: NodeAddr,
    /// Decided once at construction: true exactly when the
    /// configuration did not pin a port.
    pub allow_random_port: bool,
    /// Inbound payloads above this size are rejected.
    pub max_msg_size: usize,
    /// Supplies the bootstrap candidates.
    pub bootstrap_cache: BootstrapCache,
    /// Server-role transport parameters.
    pub endpoint_cfg: ServerParams,
    /// Client-role transport parameters.
    pub client_cfg: ClientParams,
}

/// The instance `with_config` builds from configuration `c` and
/// caller-supplied bootstrap nodes `nodes`.
pub open spec fn built_from(q: QuicP2p, c: Config, nodes: Seq<NodeAddr>) -> bool {
    &&& q.local_addr.ip == resolved_ip(c)
    &&& q.local_addr.port == resolved_port(c)
    &&& q.allow_random_port == resolved_allow_random_port(c)
    &&& q.max_msg_size == resolved_max_msg_size(c)
    &&& q.endpoint_cfg.idle_timeout_msec == resolved_idle_timeout(c)
    &&& q.endpoint_cfg.keep_alive_interval_msec == resolved_keep_alive_interval(c)
    &&& q.client_cfg.idle_timeout_msec == resolved_idle_timeout(c)
    &&& q.client_cfg.keep_alive_interval_msec == resolved_keep_alive_interval(c)
    &&& q.bootstrap_cache.hard_coded_contacts@ == c.hard_coded_contacts@
    &&& q.bootstrap_cache.peers@ == nodes
}

/// The instance built when no configuration is supplied: every
/// default in force and no hard-coded contacts.
pub open spec fn default_built(q: QuicP2p, nodes: Seq<NodeAddr>) -> bool {
    &&& q.local_addr == (NodeAddr { ip: Ip::V4(0u8, 0u8, 0u8, 0u8), port: DEFAULT_PORT_TO_TRY })
    &&& q.allow_random_port == true
    &&& q.max_msg_size == DEFAULT_MAX_ALLOWED_MSG_SIZE
    &&& q.endpoint_cfg.idle_timeout_msec == DEFAULT_IDLE_TIMEOUT_MSEC
    &&& q.endpoint_cfg.keep_alive_interval_msec == DEFAULT_KEEP_ALIVE_INTERVAL_MSEC
    &&& q.client_cfg.idle_timeout_msec == DEFAULT_IDLE_TIMEOUT_MSEC
    &&& q.client_cfg.keep_alive_interval_msec == DEFAULT_KEEP_ALIVE_INTERVAL_MSEC
    &&& q.bootstrap_cache.hard_coded_contacts@ == Seq::<NodeAddr>::empty()
    &&& q.bootstrap_cache.peers@ == nodes
}

/// The result the bootstrap race adopts from its attempts' outcomes,
/// taken in completion order: the first success, or nothing when
/// every attempt failed.
pub open spec fn first_success(events: Seq<Option<(Connection, NodeAddr)>>) -> Option<
    (Connection, NodeAddr),
>
    decreases events.len(),
{
    if events.len() == 0 {
        None
    } else if events[0] is Some {
        events[0]
    } else {
        first_success(events.drop_first())
    }
}

/// Law: the race adopts an outcome if and only if some attempt
/// succeeded, and what it adopts is one of the successful outcomes —
/// never a failed one.
pub proof fn lemma_race_adopts_a_success(events: Seq<Option<(Connection, NodeAddr)>>)
    ensures
        (first_success(events) is Some) <==> (exists|i: int|
            0 <= i < events.len() && events[i] is Some),
        first_success(events) is Some ==> (exists|i: int|
            0 <= i < events.len() && events[i] == first_success(events)),
    decreases events.len(),
{
    if events.len() == 0 {
    } else if events[0] is Some {
        assert(events[0] is Some);
    } else {
        let rest = events.drop_first();
        lemma_race_adopts_a_success(rest);
        if first_success(events) is Some {
            let i = choose|i: int| 0 <= i < rest.len() && rest[i] == first_success(rest);
            assert(events[i + 1] == first_success(events));
        }
        if exists|i: int| 0 <= i < events.len() && events[i] is Some {
            let i = choose|i: int| 0 <= i < events.len() && events[i] is Some;
            assert(rest[i - 1] is Some);
        }
    }
}

/// Law: when every successful attempt reached a reachable peer — a
/// handshake cannot succeed with an unreachable one — whatever the
/// race adopts is a connection to a reachable peer, never to an
/// unreachable one.
pub proof fn lemma_bootstrap_winner_reachable(
    events: Seq<Option<(Connection, NodeAddr)>>,
    reachable: Set<NodeAddr>,
)
    requires
        forall|i: int|
            0 <= i < events.len() && events[i] is Some ==> reachable.contains(
                events[i].unwrap().0.peer_addr,
            ),
    ensures
        first_success(events) is Some ==> reachable.contains(
            first_success(events).unwrap().0.peer_addr,
        ),
{
    if first_success(events) is Some {
        lemma_race_adopts_a_success(events);
        let i = choose|i: int| 0 <= i < events.len() && events[i] == first_success(events);
        assert(events[i] is Some);
    }
}

/// Law: with no candidates there are no attempt outcomes, and the
/// race reports failure.
pub proof fn lemma_empty_race_fails()
    ensures
        first_success(Seq::<Option<(Connection, NodeAddr)>>::empty()) is None,
{
}

proof fn lemma_first_success_all_none(events: Seq<Option<(Connection, NodeAddr)>>)
    requires
        forall|k: int| 0 <= k < events.len() ==> events[k] is None,
    ensures
        first_success(events) is None,
    decreases events.len(),
{
    if events.len() > 0 {
        let rest = events.drop_first();
        assert forall|k: int| 0 <= k < rest.len() implies rest[k] is None by {
            assert(events[k + 1] is None);
        }
        lemma_first_success_all_none(rest);
    }
}

proof fn lemma_first_success_at(events: Seq<Option<(Connection, NodeAddr)>>, i: int)
    requires
        0 <= i < events.len(),
        events[i] is Some,
        forall|k: int| 0 <= k < i ==> events[k] is None,
    ensures
        first_success(events) == events[i],
    decreases i,
{
    if i > 0 {
        let rest = events.drop_first();
        assert forall|k: int| 0 <= k < i - 1 implies rest[k] is None by {
            assert(events[k + 1] is None);
        }
        assert(rest[i - 1] == events[i]);
        lemma_first_success_at(rest, i - 1);
    }
}

impl QuicP2p {
    /// Construct with the default configuration, no caller-supplied
    /// bootstrap nodes, and the cache's peer list kept.
    pub fn new() -> (r: Result<QuicP2p, Error>)
        ensures
            r is Ok,
            default_built(r.unwrap(), Seq::<NodeAddr>::empty()),
    {
        Self::with_config(None, VecDeque::new(), true)
    }

    /// Construct from the supplied configuration (or the default one
    /// when none is given), resolving every optional field to its
    /// concrete value exactly once.
    ///
    /// `bootstrap_nodes` are recorded in the peer cache; with
    /// `use_bootstrap_cache` they extend whatever peers the cache
    /// already holds, without it they replace them wholesale.
    pub fn with_config(
        cfg: Option<Config>,
        bootstrap_nodes: VecDeque<NodeAddr>,
        use_bootstrap_cache: bool,
    ) -> (r: Result<QuicP2p, Error>)
        ensures
            r is Ok,
            cfg is Some ==> built_from(r.unwrap(), cfg.unwrap(), bootstrap_nodes@),
            cfg is None ==> default_built(r.unwrap(), bootstrap_nodes@),
    {
        let c = match unwrap_config_or_default(cfg) {
            Ok(c) => c,
            Err(e) => {
                return Err(e);
            },
        };

        let (port, allow_random_port): (u16, bool) = match c.port {
            Some(p) => (p, false),
            None => (DEFAULT_PORT_TO_TRY, true),
        };

        let ip = match c.ip {
            Some(ip) => ip,
            None => Ip::unspecified(),
        };

        let max_msg_size: usize = match c.max_msg_size_allowed {
            Some(s) => s as usize,
            None => DEFAULT_MAX_ALLOWED_MSG_SIZE,
        };

        let idle_timeout_msec: u64 = match c.idle_timeout_msec {
            Some(t) => t,
            None => DEFAULT_IDLE_TIMEOUT_MSEC,
        };

        let keep_alive_interval_msec: u32 = match c.keep_alive_interval_msec {
            Some(k) => k,
            None => DEFAULT_KEEP_ALIVE_INTERVAL_MSEC,
        };

        let mut bootstrap_cache = BootstrapCache::new(c.hard_coded_contacts);
        if use_bootstrap_cache {
            bootstrap_cache.extend_peers(bootstrap_nodes);
            proof {
                assert(Seq::<NodeAddr>::empty() + bootstrap_nodes@ =~= bootstrap_nodes@);
            }
        } else {
            bootstrap_cache.replace_peers(bootstrap_nodes);
        }

        let endpoint_cfg = new_our_cfg(idle_timeout_msec, keep_alive_interval_msec);
        let client_cfg = new_client_cfg(idle_timeout_msec, keep_alive_interval_msec);

        Ok(
            QuicP2p {
                local_addr: NodeAddr::new(ip, port),
                allow_random_port,
                max_msg_size,
                bootstrap_cache,
                endpoint_cfg,
                client_cfg,
            },
        )
    }

    /// The ordered candidate list a bootstrap race attempts: cached
    /// peers most-recent first, then the hard-coded contacts.
    pub fn bootstrap_candidates(&self) -> (r: Vec<NodeAddr>)
        ensures
            r@ == candidate_seq(
                self.bootstrap_cache.peers@,
                self.bootstrap_cache.hard_coded_contacts@,
            ),
    {
        self.bootstrap_cache.candidates()
    }

    /// Resolve a bootstrap race from its attempts' outcomes, given in
    /// completion order (the racing itself — one concurrent attempt
    /// per candidate, losers cancelled and discarded — is the
    /// asynchronous collaborator's job). The first success is
    /// adopted: its connection is returned and the recorded local
    /// address becomes the one that attempt bound. If every attempt
    /// failed, or there was no candidate at all, the single aggregate
    /// bootstrap failure is reported and the instance is unchanged.
    pub fn complete_bootstrap(&mut self, outcomes: Vec<Option<(Connection, NodeAddr)>>) -> (r:
        Result<Connection, Error>)
        ensures
            first_success(outcomes@) is None ==> r == Err::<Connection, Error>(
                Error::BootstrapFailure,
            ) && *final(self) == *old(self),
            first_success(outcomes@) is Some ==> ({
                let w = first_success(outcomes@).unwrap();
                &&& r == Ok::<Connection, Error>(w.0)
                &&& final(self).local_addr == w.1
                &&& final(self).allow_random_port == old(self).allow_random_port
                &&& final(self).max_msg_size == old(self).max_msg_size
                &&& final(self).bootstrap_cache == old(self).bootstrap_cache
                &&& final(self).endpoint_cfg == old(self).endpoint_cfg
                &&& final(self).client_cfg == old(self).client_cfg
            }),
    {
        let n = outcomes.len();
        let mut i: usize = 0;
        while i < n
            invariant
                n == outcomes@.len(),
                i <= n,
                forall|k: int| 0 <= k < i ==> outcomes@[k] is None,
                *self == *old(self),
            decreases n - i,
        {
            match outcomes[i] {
                Some((conn, addr)) => {
                    proof {
                        lemma_first_success_at(outcomes@, i as int);
                    }
                    self.local_addr = addr;
                    return Ok(conn);
                },
                None => {
                    i = i + 1;
                },
            }
        }
        proof {
            lemma_first_success_all_none(outcomes@);
        }
        Err(Error::BootstrapFailure)
    }

    /// Our address to hand to others so they can connect to us.
    pub fn our_endpoint(&self) -> (r: Result<NodeAddr, Error>)
        ensures
            r == Ok::<NodeAddr, Error>(self.local_addr),
    {
        Ok(self.local_addr)
    }
}

/// Law: a configuration that pins a port never falls back — the
/// instance leaves "allow random port" mode off, and when the pinned
/// port cannot be bound, binding fails with the configuration error
/// naming that port.
pub proof fn lemma_pinned_port_fails_hard(c: Config, q: QuicP2p, nodes: Seq<NodeAddr>)
    requires
        c.port is Some,
        built_from(q, c, nodes),
    ensures
        !q.allow_random_port,
        q.local_addr.port == c.port.unwrap(),
        crate::bind::bind_failure_plan(q.local_addr, q.allow_random_port) == Err::<
            NodeAddr,
            Error,
        >(Error::Configuration { port: c.port.unwrap() }),
{
}

/// Law: a configuration that pins no port puts the instance in
/// "allow random port" mode — when the default port cannot be bound,
/// the plan is a retry on the same IP with port zero, asking the OS
/// for an ephemeral port, rather than a failure.
pub proof fn lemma_unpinned_port_falls_back(c: Config, q: QuicP2p, nodes: Seq<NodeAddr>)
    requires
        c.port is None,
        built_from(q, c, nodes),
    ensures
        q.allow_random_port,
        q.local_addr.port == DEFAULT_PORT_TO_TRY,
        crate::bind::bind_failure_plan(q.local_addr, q.allow_random_port) == Ok::<
            NodeAddr,
            Error,
        >(NodeAddr { ip: resolved_ip(c), port: 0 }),
{
}

} // verus!
