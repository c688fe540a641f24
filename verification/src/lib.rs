//! Relay-cell cryptography for an onion-routing circuit, together with the
//! slug naming utility used by the surrounding system.

pub mod cell;
pub mod crypt;
pub mod laws;
pub mod hash;
pub mod prim;
pub mod slug;
pub mod stream;
