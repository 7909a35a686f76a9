//! Reachable-endpoint resolution for a peer-to-peer node: choosing a local
//! bind address from the host's interfaces, and driving a binding-discovery
//! (STUN) probe that learns the externally visible endpoint.

pub mod address;
pub mod select;
pub mod probe;
