//! Portable IP address values.
//!
//! The engine's native address structures never cross into this crate: the
//! trampoline and the send path speak in these plain values, and the code
//! that talks to the engine converts at the boundary.

use vstd::prelude::*;

verus! {

/// A portable IP address, carried as plain integers: the four octets of an
/// IPv4 address packed big-endian into a `u32`, or the sixteen octets of an
/// IPv6 address packed big-endian into a `u128`.
#[derive(Clone, Copy, Debug, PartialEq, Eq, Structural)]
pub enum IpAddress {
    V4(u32),
    V6(u128),
}

} // verus!
