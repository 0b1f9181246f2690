//! Descriptors of ring positions.

use vstd::prelude::*;
use crate::constants::VIRTUAL_NODE_NUMBER;

verus! {

/// Network address of a physical host: an IPv4 address and a port, kept as
/// plain values so that the ring logic can compare addresses; the wire
/// transport turns them into whatever its sockets want.
#[derive(Clone, Copy, PartialEq, Eq, Structural, Debug)]
pub struct Address {
    pub ip: u32,
    pub port: u16,
}

/// Immutable descriptor of one virtual node: its ring identifier, the
/// address of the host that runs it, and which virtual-node slot on that
/// host it names. Copied by value wherever it travels.
#[derive(Clone, Copy, Debug)]
pub struct Location {
    pub identifier: u32,
    pub address: Address,
    pub virtual_node_id: u8,
}

impl Location {
    /// A location is well formed when its slot number lies below the fixed
    /// per-host virtual node count.
    pub open spec fn wf(&self) -> bool {
        self.virtual_node_id < VIRTUAL_NODE_NUMBER
    }

    pub fn new(identifier: u32, address: Address, virtual_node_id: u8) -> (r: Location)
        requires
            virtual_node_id < VIRTUAL_NODE_NUMBER,
        ensures
            r == (Location { identifier, address, virtual_node_id }),
            r.wf(),
    {
        Location { identifier, address, virtual_node_id }
    }

    /// Two locations name the same ring member exactly when identifier and
    /// address both match; the slot number only disambiguates which of a
    /// host's logical positions a message addresses.
    pub open spec fn same_node(&self, other: &Location) -> bool {
        self.identifier == other.identifier && self.address == other.address
    }
}

impl PartialEq for Location {
    fn eq(&self, other: &Location) -> (r: bool) {
        self.identifier == other.identifier && self.address == other.address
    }
}

impl vstd::std_specs::cmp::PartialEqSpecImpl for Location {
    open spec fn obeys_eq_spec() -> bool {
        true
    }

    open spec fn eq_spec(&self, other: &Location) -> bool {
        self.same_node(other)
    }
}

} // verus!
