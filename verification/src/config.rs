use vstd::prelude::*;
use crate::addr::{Ip, NodeAddr};
use crate::error::Error;

verus! {

/// Default maximum allowed message size (500 MiB). Bigger inbound
/// messages are rejected and the connection is treated as
/// untrustworthy. Overridable through `Config`.
pub const DEFAULT_MAX_ALLOWED_MSG_SIZE: usize = 500 * 1024 * 1024;

/// In the absence of a port supplied through `Config` this port is
/// tried first, with promotion to "allow random port" mode.
pub const DEFAULT_PORT_TO_TRY: u16 = 12000;

/// Default idle timeout, in milliseconds, when `Config` gives none.
pub const DEFAULT_IDLE_TIMEOUT_MSEC: u64 = 30_000;

/// Default keep-alive interval, in milliseconds, when `Config` gives none.
pub const DEFAULT_KEEP_ALIVE_INTERVAL_MSEC: u32 = 10_000;

/// Declarative configuration: every field optional, resolved to a
/// concrete value exactly once, at construction time.
#[derive(Clone, Debug)]
pub struct Config {
    /// Pin the local UDP port. When absent, the default port is tried
    /// with fallback to an OS-assigned ephemeral port allowed.
    pub port: Option<u16>,
    /// Local IP to bind to. When absent, the IPv4 wildcard is used.
    pub ip: Option<Ip>,
    /// Upper bound, in bytes, on an inbound message's payload.
    pub max_msg_size_allowed: Option<u32>,
    /// Idle timeout for connections, in milliseconds.
    pub idle_timeout_msec: Option<u64>,
    /// Keep-alive interval for connections, in milliseconds.
    pub keep_alive_interval_msec: Option<u32>,
    /// Override directory for the peer cache's on-disk mirror; reading
    /// and writing that mirror is a collaborator's job.
    pub bootstrap_cache_dir: Option<String>,
    /// Contacts that are always bootstrap candidates, tried after the
    /// cached peers, never removed or reordered.
    pub hard_coded_contacts: Vec<NodeAddr>,
}

/// Every field absent and no hard-coded contacts.
pub open spec fn is_default_config(c: Config) -> bool {
    &&& c.port is None
    &&& c.ip is None
    &&& c.max_msg_size_allowed is None
    &&& c.idle_timeout_msec is None
    &&& c.keep_alive_interval_msec is None
    &&& c.bootstrap_cache_dir is None
    &&& c.hard_coded_contacts@ == Seq::<NodeAddr>::empty()
}

impl Default for Config {
    fn default() -> (r: Self)
        ensures
            is_default_config(r),
    {
        Config {
            port: None,
            ip: None,
            max_msg_size_allowed: None,
            idle_timeout_msec: None,
            keep_alive_interval_msec: None,
            bootstrap_cache_dir: None,
            hard_coded_contacts: Vec::new(),
        }
    }
}

/// The port the configuration asks to bind first.
pub open spec fn resolved_port(c: Config) -> u16 {
    match c.port {
        Some(p) => p,
        None => DEFAULT_PORT_TO_TRY,
    }
}

/// Fallback to an ephemeral port is allowed exactly when no port was
/// pinned explicitly.
pub open spec fn resolved_allow_random_port(c: Config) -> bool {
    c.port is None
}

/// The IP the configuration asks to bind, wildcard when absent.
pub open spec fn resolved_ip(c: Config) -> Ip {
    match c.ip {
        Some(ip) => ip,
        None => Ip::V4(0u8, 0u8, 0u8, 0u8),
    }
}

/// The maximum inbound message size in force.
pub open spec fn resolved_max_msg_size(c: Config) -> usize {
    match c.max_msg_size_allowed {
        Some(s) => s as usize,
        None => DEFAULT_MAX_ALLOWED_MSG_SIZE,
    }
}

/// The idle timeout in force, in milliseconds.
pub open spec fn resolved_idle_timeout(c: Config) -> u64 {
    match c.idle_timeout_msec {
        Some(t) => t,
        None => DEFAULT_IDLE_TIMEOUT_MSEC,
    }
}

/// The keep-alive interval in force, in milliseconds.
pub open spec fn resolved_keep_alive_interval(c: Config) -> u32 {
    match c.keep_alive_interval_msec {
        Some(k) => k,
        None => DEFAULT_KEEP_ALIVE_INTERVAL_MSEC,
    }
}

/// Use the configuration the caller supplied, or the default one when
/// none was. Loading a configuration from disk is a collaborator's
/// job; it hands the result in as `Some`.
pub fn unwrap_config_or_default(cfg: Option<Config>) -> (r: Result<Config, Error>)
    ensures
        cfg is Some ==> r == Ok::<Config, Error>(cfg.unwrap()),
        cfg is None ==> r is Ok && is_default_config(r.unwrap()),
{
    match cfg {
        Some(c) => Ok(c),
        None => Ok(Config::default()),
    }
}

} // verus!
