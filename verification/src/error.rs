use vstd::prelude::*;
use crate::addr::NodeAddr;

verus! {

/// The failure categories every public operation reports. Each variant
/// carries the context a caller needs to branch on, rather than an
/// opaque string.
#[derive(Clone, Copy, Debug, PartialEq, Eq, Structural)]
pub enum Error {
    /// The explicitly pinned port could not be bound and fallback to an
    /// ephemeral port was disallowed: the misconfiguration is surfaced
    /// instead of silently worked around.
    Configuration { port: u16 },
    /// A local bind failed irrecoverably (including a failed fallback
    /// bind to an ephemeral port).
    Endpoint,
    /// The outbound handshake to `peer` was refused, timed out, or was
    /// rejected by the transport protocol.
    Connect { peer: NodeAddr },
    /// Every racing bootstrap candidate failed, or the candidate list
    /// was empty.
    BootstrapFailure,
    /// An inbound payload of `size` bytes exceeded the configured
    /// maximum `max`; the connection it arrived on should be torn down.
    MessageTooLarge { size: usize, max: usize },
    /// The operation was attempted on a connection or endpoint whose
    /// underlying session has already ended.
    Closed,
}

} // verus!
