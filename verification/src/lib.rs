//! Peer-to-peer connection establishment over a secure, multiplexed
//! transport: candidate discovery from a peer cache, local endpoint
//! binding with a port-fallback policy, transport parameter derivation
//! from a declarative configuration, and a race-to-first-success
//! bootstrap over the candidate list.

pub mod addr;
pub mod api;
pub mod bind;
pub mod cache;
pub mod config;
pub mod connection;
pub mod error;
pub mod payload;
pub mod params;
