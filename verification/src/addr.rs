use vstd::prelude::*;

verus! {

/// An IP address: IPv4 as four octets, or IPv6 as a 128-bit value.
#[derive(Clone, Copy, Debug, PartialEq, Eq, Structural)]
pub enum Ip {
    V4(u8, u8, u8, u8),
    V6(u128),
}

impl Ip {
    /// The IPv4 wildcard address `0.0.0.0`, used when the configuration
    /// does not pin a bind IP.
    pub fn unspecified() -> (r: Ip)
        ensures
            r == Ip::V4(0u8, 0u8, 0u8, 0u8),
    {
        Ip::V4(0, 0, 0, 0)
    }
}

/// A peer socket address: an IP plus a UDP port.
#[derive(Clone, Copy, Debug, PartialEq, Eq, Structural)]
pub struct NodeAddr {
    pub ip: Ip,
    pub port: u16,
}

impl NodeAddr {
    pub fn new(ip: Ip, port: u16) -> (r: NodeAddr)
        ensures
            r.ip == ip,
            r.port == port,
    {
        NodeAddr { ip, port }
    }

    /// The same IP with port zero: a request for an OS-assigned
    /// ephemeral port.
    pub fn with_ephemeral_port(&self) -> (r: NodeAddr)
        ensures
            r.ip == self.ip,
            r.port == 0,
    {
        NodeAddr { ip: self.ip, port: 0 }
    }
}

} // verus!
