use vstd::prelude::*;
use crate::addr::NodeAddr;
use crate::error::Error;

verus! {

/// Local endpoint state once a bind has succeeded: the address the
/// OS actually bound, and whether it came from the fallback tier
/// (an ephemeral port) rather than from the literal bind. Both are
/// fixed at bind time.
#[derive(Clone, Copy, Debug, PartialEq, Eq, Structural)]
pub struct LocalEndpoint {
    pub addr: NodeAddr,
    pub used_random_port: bool,
}

/// What binding does next once the literal bind to the requested
/// address has failed: retry on an OS-assigned ephemeral port at the
/// same IP when fallback is allowed, otherwise fail hard with the
/// originally requested port. The two tiers exist so that a caller
/// who pinned a port sees the misconfiguration, while one who
/// accepted the default gets best-effort availability.
pub open spec fn bind_failure_plan(requested: NodeAddr, allow_random_port: bool) -> Result<
    NodeAddr,
    Error,
> {
    if allow_random_port {
        Ok(NodeAddr { ip: requested.ip, port: 0 })
    } else {
        Err(Error::Configuration { port: requested.port })
    }
}

/// Decide the follow-up to a failed literal bind. The collaborator
/// that performs the OS bind calls this after the first attempt
/// fails; on `Ok` it binds the returned address (a failure of that
/// second bind is fatal, an `Endpoint` error), on `Err` it reports
/// the configuration error as-is.
pub fn on_bind_failure(requested: NodeAddr, allow_random_port: bool) -> (r: Result<
    NodeAddr,
    Error,
>)
    ensures
        r == bind_failure_plan(requested, allow_random_port),
{
    if allow_random_port {
        Ok(requested.with_ephemeral_port())
    } else {
        Err(Error::Configuration { port: requested.port })
    }
}

/// The error a failed fallback bind surfaces: fatal for the call.
pub fn on_fallback_bind_failure() -> (r: Error)
    ensures
        r == Error::Endpoint,
{
    Error::Endpoint
}

} // verus!
