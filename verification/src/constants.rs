//! Configuration constants of the reference deployment.

use vstd::prelude::*;

verus! {

/// Listening port of the wire transport (a transport concern; the ring
/// logic never reads it).
pub const PORT: u16 = 8820;

/// Read-buffer size of the wire transport (a transport concern).
pub const INPUT_BUFFER_SIZE: usize = 1024;

/// Width in bits of a ring identifier: all ring arithmetic happens modulo
/// `2^ID_BITS`, and an identifier is exactly a `u32`.
pub const ID_BITS: u8 = 32;

/// How many virtual nodes one physical process hosts; a virtual node id
/// always lies below this bound.
pub const VIRTUAL_NODE_NUMBER: u8 = 8;

} // verus!
