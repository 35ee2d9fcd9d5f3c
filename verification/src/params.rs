use vstd::prelude::*;

verus! {

/// Parameter set for the server role: what the transport engine needs
/// to accept inbound connections. The identity material (certificate
/// and key) that accompanies it at the engine boundary is generated
/// and held by a collaborator.
#[derive(Clone, Copy, Debug, PartialEq, Eq, Structural)]
pub struct ServerParams {
    pub idle_timeout_msec: u64,
    pub keep_alive_interval_msec: u32,
}

/// Parameter set for the client role: what the transport engine needs
/// to initiate outbound connections.
#[derive(Clone, Copy, Debug, PartialEq, Eq, Structural)]
pub struct ClientParams {
    pub idle_timeout_msec: u64,
    pub keep_alive_interval_msec: u32,
}

/// Build the server-role parameter set from the resolved timeouts.
pub fn new_our_cfg(idle_timeout_msec: u64, keep_alive_interval_msec: u32) -> (r: ServerParams)
    ensures
        r == (ServerParams { idle_timeout_msec, keep_alive_interval_msec }),
{
    ServerParams { idle_timeout_msec, keep_alive_interval_msec }
}

/// Build the client-role parameter set from the resolved timeouts.
pub fn new_client_cfg(idle_timeout_msec: u64, keep_alive_interval_msec: u32) -> (r: ClientParams)
    ensures
        r == (ClientParams { idle_timeout_msec, keep_alive_interval_msec }),
{
    ClientParams { idle_timeout_msec, keep_alive_interval_msec }
}

} // verus!
