//! Per-virtual-node state and the table of virtual nodes one process hosts.

use vstd::prelude::*;
use crate::constants::VIRTUAL_NODE_NUMBER;
use crate::location::Location;

verus! {

/// The mutable record a host keeps for one of its virtual nodes: the
/// node's own immutable location and its best-effort predecessor and
/// successor pointers. The host guards each record with its own exclusive
/// lock and never holds that lock across a network call; inside the lock
/// this core's functions do all the reading and writing.
#[derive(Clone, Copy, Debug)]
pub struct VirtualNodeState {
    pub location: Location,
    pub predecessor: Option<Location>,
    pub successor: Option<Location>,
}

impl VirtualNodeState {
    /// A freshly started virtual node knows nothing of the ring: no
    /// predecessor, and no successor until it joins (or, as the first node
    /// of an empty ring, until someone joins it and stabilization runs).
    pub fn new(location: Location) -> (r: VirtualNodeState)
        ensures
            r == (VirtualNodeState { location, predecessor: None, successor: None }),
    {
        VirtualNodeState { location, predecessor: None, successor: None }
    }

    /// The identifier this virtual node occupies on the ring; the value a
    /// joining node resolves against its bootstrap peer.
    pub fn own_identifier(&self) -> (r: u32)
        ensures
            r == self.location.identifier,
    {
        self.location.identifier
    }
}

/// The ordered table of virtual nodes one physical process hosts, indexed
/// by virtual node id. Its length is fixed at process start; the host
/// wraps each entry in its own lock, so entries of different slots may be
/// worked on concurrently.
pub struct NodeList {
    pub node_list: Vec<VirtualNodeState>,
}

impl NodeList {
    /// Each entry sits in the slot its location names, and the table never
    /// exceeds the configured per-host virtual node count.
    pub open spec fn wf(&self) -> bool {
        &&& self.node_list@.len() <= VIRTUAL_NODE_NUMBER as int
        &&& forall|i: int|
            0 <= i < self.node_list@.len() ==> (#[trigger] self.node_list@[i]).location.virtual_node_id as int == i
    }

    /// Builds the table a process starts with: one fresh virtual node per
    /// given location, none of them joined to any ring yet.
    pub fn new(locations: Vec<Location>) -> (r: NodeList)
        requires
            locations@.len() <= VIRTUAL_NODE_NUMBER as int,
            forall|i: int|
                0 <= i < locations@.len() ==> (#[trigger] locations@[i]).virtual_node_id as int == i,
        ensures
            r.wf(),
            r.node_list@.len() == locations@.len(),
            forall|i: int|
                0 <= i < locations@.len() ==> (#[trigger] r.node_list@[i]) == (VirtualNodeState {
                    location: locations@[i],
                    predecessor: None,
                    successor: None,
                }),
    {
        let mut node_list: Vec<VirtualNodeState> = Vec::new();
        let mut i: usize = 0;
        while i < locations.len()
            invariant
                i <= locations@.len(),
                locations@.len() <= VIRTUAL_NODE_NUMBER as int,
                forall|j: int|
                    0 <= j < locations@.len() ==> (#[trigger] locations@[j]).virtual_node_id as int
                        == j,
                node_list@.len() == i,
                forall|j: int|
                    0 <= j < i ==> (#[trigger] node_list@[j]) == (VirtualNodeState {
                        location: locations@[j],
                        predecessor: None,
                        successor: None,
                    }),
            decreases locations@.len() - i,
        {
            node_list.push(VirtualNodeState::new(locations[i]));
            i = i + 1;
        }
        NodeList { node_list }
    }
}

} // verus!
