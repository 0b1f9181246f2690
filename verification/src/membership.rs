//! The membership protocol: joining a ring and keeping it consistent.
//!
//! Joining resolves the owner of the joining node's own identifier through
//! the ring of the bootstrap peer, then records it as successor.
//! Stabilization periodically asks the recorded successor for its
//! predecessor, adopts that predecessor as the new successor when it lies
//! strictly between, and notifies the (possibly updated) successor of this
//! node's existence. Network exchanges happen between these functions, in
//! the host: each function here is one critical section under the virtual
//! node's lock, or one pure decision.

use vstd::prelude::*;
use crate::arithmetic::in_range_spec;
use crate::arithmetic::is_in_range;
use crate::command::Error;
use crate::location::Location;
use crate::node::VirtualNodeState;

verus! {

/// Commits a join: the resolved owner of this node's own identifier
/// becomes its successor, and the predecessor is reset to unknown —
/// discovering it is left to the stabilization rounds and to the notify
/// handler of the new successor.
pub fn join_commit(node: &mut VirtualNodeState, owner: Location)
    ensures
        *final(node) == (VirtualNodeState {
            location: old(node).location,
            predecessor: None,
            successor: Some(owner),
        }),
{
    node.predecessor = None;
    node.successor = Some(owner);
}

/// First critical section of a stabilization round: copies out this node's
/// own location and its recorded successor, so that the round's network
/// calls run without the lock held. A node with no successor configured
/// has not joined any ring and cannot stabilize.
pub fn stabilize_read(node: &VirtualNodeState) -> (r: Result<(Location, Location), Error>)
    ensures
        r == (match node.successor {
            Some(successor) => Ok::<(Location, Location), Error>((node.location, successor)),
            None => Err::<(Location, Location), Error>(Error::NoSuccessor),
        }),
{
    match &node.successor {
        Some(successor) => Ok((node.location, *successor)),
        None => Err(Error::NoSuccessor),
    }
}

/// The stabilization decision: the successor's reported predecessor
/// becomes the new successor exactly when it lies strictly between this
/// node and the successor the round started from.
pub open spec fn stabilize_choice(
    local: Location,
    successor: Location,
    reported_predecessor: Location,
) -> Location {
    if in_range_spec(
        reported_predecessor.identifier as int,
        local.identifier as int,
        false,
        successor.identifier as int,
        false,
    ) {
        reported_predecessor
    } else {
        successor
    }
}

/// Second critical section of a stabilization round, entered after the
/// successor reported its predecessor: records the reported predecessor as
/// the new successor exactly when it lies strictly between `local` and
/// `successor` (the copies the round started from), and returns the
/// location the round's single notify must go to — the possibly updated
/// successor.
pub fn stabilize_commit(
    node: &mut VirtualNodeState,
    local: Location,
    successor: Location,
    reported_predecessor: Location,
) -> (notify_target: Location)
    ensures
        notify_target == stabilize_choice(local, successor, reported_predecessor),
        in_range_spec(
            reported_predecessor.identifier as int,
            local.identifier as int,
            false,
            successor.identifier as int,
            false,
        ) ==> *final(node) == (VirtualNodeState {
            location: old(node).location,
            predecessor: old(node).predecessor,
            successor: Some(reported_predecessor),
        }),
        !in_range_spec(
            reported_predecessor.identifier as int,
            local.identifier as int,
            false,
            successor.identifier as int,
            false,
        ) ==> *final(node) == *old(node),
{
    if is_in_range(
        reported_predecessor.identifier,
        (local.identifier, false),
        (successor.identifier, false),
    ) {
        node.successor = Some(reported_predecessor);
        reported_predecessor
    } else {
        successor
    }
}

/// The stabilization decision never un-does itself: applied a second time
/// to its own result, with the same reported predecessor, it changes
/// nothing — an adopted predecessor never lies strictly between a node
/// and itself.
pub proof fn lemma_stabilize_choice_stable(
    local: Location,
    successor: Location,
    reported_predecessor: Location,
)
    ensures
        stabilize_choice(
            local,
            stabilize_choice(local, successor, reported_predecessor),
            reported_predecessor,
        ) == stabilize_choice(local, successor, reported_predecessor),
{
}

/// Stabilization is idempotent on a ring that does not change between
/// rounds: when the successor's reported predecessor does not lie strictly
/// between — the recorded successor is already the right one — a round
/// keeps the successor, and so does the round after it, which observes the
/// very same report. (When a round does adopt a closer successor, the next
/// round asks that new successor instead, and keeps converging until the
/// ring's notify handlers have caught up.)
pub proof fn lemma_stabilize_idempotent(
    local: Location,
    successor: Location,
    ring_predecessor: Map<Location, Location>,
)
    requires
        ring_predecessor.dom().contains(successor),
        !in_range_spec(
            ring_predecessor[successor].identifier as int,
            local.identifier as int,
            false,
            successor.identifier as int,
            false,
        ),
    ensures
        stabilize_choice(local, successor, ring_predecessor[successor]) == successor,
        stabilize_choice(
            local,
            stabilize_choice(local, successor, ring_predecessor[successor]),
            ring_predecessor[stabilize_choice(local, successor, ring_predecessor[successor])],
        ) == successor,
{
}

} // verus!
