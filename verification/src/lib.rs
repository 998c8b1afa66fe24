//! Routing data of a Sphinx mix-network packet: the relays a packet passes
//! through, the destination it is delivered to, and the keys that identify a
//! relay.

pub mod b64;
pub mod constants;
pub mod crypto;
pub mod route;
