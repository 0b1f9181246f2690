//! The lookup engine: resolving which node owns an identifier.
//!
//! The walk is iterative and remote: ask the current candidate for its
//! successor; if the key falls in the clockwise interval from the
//! candidate (exclusive) to that successor (inclusive), the candidate is
//! the key's predecessor and one final successor query resolves the owner;
//! otherwise ask the candidate for the closest preceding node it knows and
//! continue from there. Every network exchange is a suspension point of
//! the host, so the walk lives here as a state machine: the host performs
//! the pending request and feeds the response back to [`lookup_step`].

use vstd::prelude::*;
use crate::arithmetic::clockwise_dist;
use crate::arithmetic::clockwise_gap;
use crate::arithmetic::id_space;
use crate::arithmetic::in_range_spec;
use crate::arithmetic::is_in_range;
use crate::arithmetic::lemma_in_range_gap;
use crate::command::Error;
use crate::command::Request;
use crate::command::RequestKind;
use crate::command::Response;
use crate::command::closest_preceding_finger_request;
use crate::command::get_successor_request;
use crate::location::Location;

verus! {

/// Where one lookup walk stands between two network exchanges.
#[derive(Clone, Copy, Debug)]
pub enum LookupPhase {
    /// Waiting for the candidate's successor, to test whether the walk
    /// may stop at the candidate.
    AskingSuccessor { candidate: Location },
    /// The candidate does not precede the key tightly enough: waiting for
    /// the closest preceding node it knows of.
    AskingCloser { candidate: Location },
    /// The key's predecessor is known: waiting for its successor, the
    /// owner of the key.
    Finishing { predecessor: Location },
    /// The walk is over: `successor` owns the key.
    Done { successor: Location },
}

/// One in-flight resolution of `find_successor(start, key)`.
#[derive(Clone, Copy, Debug)]
pub struct Lookup {
    pub key: u32,
    pub phase: LookupPhase,
}

/// The remote exchange the walk waits on: whom to ask and what to ask,
/// or nothing once the walk is done.
pub open spec fn lookup_request_spec(lookup: Lookup) -> Option<(Location, Request)> {
    match lookup.phase {
        LookupPhase::AskingSuccessor { candidate } => Some(
            (candidate, Request::GetSuccessor { virtual_node_id: candidate.virtual_node_id }),
        ),
        LookupPhase::AskingCloser { candidate } => Some(
            (
                candidate,
                Request::ClosestPrecedingFinger {
                    virtual_node_id: candidate.virtual_node_id,
                    key: lookup.key,
                },
            ),
        ),
        LookupPhase::Finishing { predecessor } => Some(
            (
                predecessor,
                Request::GetSuccessor { virtual_node_id: predecessor.virtual_node_id },
            ),
        ),
        LookupPhase::Done { .. } => None,
    }
}

/// How one response moves the walk forward. A response of the wrong
/// variant for the phase's request is a protocol error naming the request
/// kind that failed; a finished walk ignores responses and stays finished.
pub open spec fn lookup_step_spec(lookup: Lookup, response: Response) -> Result<Lookup, Error> {
    match lookup.phase {
        LookupPhase::AskingSuccessor { candidate } => match response {
            Response::GetSuccessor { location } => {
                if in_range_spec(
                    lookup.key as int,
                    candidate.identifier as int,
                    false,
                    location.identifier as int,
                    true,
                ) {
                    Ok(Lookup { key: lookup.key, phase: LookupPhase::Finishing { predecessor: candidate } })
                } else {
                    Ok(Lookup { key: lookup.key, phase: LookupPhase::AskingCloser { candidate } })
                }
            },
            _ => Err(Error::UnexpectedResponse(RequestKind::GetSuccessor)),
        },
        LookupPhase::AskingCloser { .. } => match response {
            Response::ClosestPrecedingFinger { location } => Ok(
                Lookup { key: lookup.key, phase: LookupPhase::AskingSuccessor { candidate: location } },
            ),
            _ => Err(Error::UnexpectedResponse(RequestKind::ClosestPrecedingFinger)),
        },
        LookupPhase::Finishing { .. } => match response {
            Response::GetSuccessor { location } => Ok(
                Lookup { key: lookup.key, phase: LookupPhase::Done { successor: location } },
            ),
            _ => Err(Error::UnexpectedResponse(RequestKind::GetSuccessor)),
        },
        LookupPhase::Done { .. } => Ok(lookup),
    }
}

/// Starts resolving the owner of `key`, asking first at `start`.
pub fn lookup_start(start: &Location, key: u32) -> (r: Lookup)
    ensures
        r == (Lookup { key, phase: LookupPhase::AskingSuccessor { candidate: *start } }),
{
    Lookup { key, phase: LookupPhase::AskingSuccessor { candidate: *start } }
}

/// The remote exchange the walk waits on, or `None` once it is done.
pub fn lookup_request(lookup: &Lookup) -> (r: Option<(Location, Request)>)
    ensures
        r == lookup_request_spec(*lookup),
{
    match &lookup.phase {
        LookupPhase::AskingSuccessor { candidate } => Some(
            (*candidate, get_successor_request(candidate)),
        ),
        LookupPhase::AskingCloser { candidate } => Some(
            (*candidate, closest_preceding_finger_request(candidate, lookup.key)),
        ),
        LookupPhase::Finishing { predecessor } => Some(
            (*predecessor, get_successor_request(predecessor)),
        ),
        LookupPhase::Done { .. } => None,
    }
}

/// Feeds the response of the pending exchange into the walk.
pub fn lookup_step(lookup: Lookup, response: Response) -> (r: Result<Lookup, Error>)
    ensures
        r == lookup_step_spec(lookup, response),
{
    match lookup.phase {
        LookupPhase::AskingSuccessor { candidate } => match response {
            Response::GetSuccessor { location } => {
                if is_in_range(
                    lookup.key,
                    (candidate.identifier, false),
                    (location.identifier, true),
                ) {
                    Ok(Lookup { key: lookup.key, phase: LookupPhase::Finishing { predecessor: candidate } })
                } else {
                    Ok(Lookup { key: lookup.key, phase: LookupPhase::AskingCloser { candidate } })
                }
            },
            _ => Err(Error::UnexpectedResponse(RequestKind::GetSuccessor)),
        },
        LookupPhase::AskingCloser { .. } => match response {
            Response::ClosestPrecedingFinger { location } => Ok(
                Lookup { key: lookup.key, phase: LookupPhase::AskingSuccessor { candidate: location } },
            ),
            _ => Err(Error::UnexpectedResponse(RequestKind::ClosestPrecedingFinger)),
        },
        LookupPhase::Finishing { .. } => match response {
            Response::GetSuccessor { location } => Ok(
                Lookup { key: lookup.key, phase: LookupPhase::Done { successor: location } },
            ),
            _ => Err(Error::UnexpectedResponse(RequestKind::GetSuccessor)),
        },
        LookupPhase::Done { .. } => Ok(lookup),
    }
}

/// The owner the walk resolved, once it is done.
pub fn lookup_result(lookup: &Lookup) -> (r: Option<Location>)
    ensures
        r == (match lookup.phase {
            LookupPhase::Done { successor } => Some(successor),
            _ => None::<Location>,
        }),
{
    match &lookup.phase {
        LookupPhase::Done { successor } => Some(*successor),
        _ => None,
    }
}

/// A set of ring identifiers, all inside the identifier space.
pub open spec fn valid_ids(ids: Set<int>) -> bool {
    forall|i: int| ids.contains(i) ==> 0 <= i < id_space()
}

/// `succ` is the ring successor of `cand` among the members `ids`: the
/// member reached first when walking clockwise from just after `cand` —
/// `cand` itself, a full turn later, when it is the only member.
pub open spec fn is_ring_successor(ids: Set<int>, cand: int, succ: int) -> bool {
    &&& ids.contains(succ)
    &&& forall|t: int| #[trigger] ids.contains(t) ==> clockwise_gap(cand, succ) <= clockwise_gap(cand, t)
}

/// `owner` owns `key` among the members `ids`: it is the member with the
/// smallest identifier at or after `key`, circularly — the member whose
/// clockwise distance from `key` is smallest.
pub open spec fn is_owner(ids: Set<int>, key: int, owner: int) -> bool {
    &&& ids.contains(owner)
    &&& forall|t: int| #[trigger] ids.contains(t) ==> clockwise_dist(key, owner) <= clockwise_dist(key, t)
}

/// Walking clockwise from `a`, a point `c` no nearer than `b` lies exactly
/// the difference of the two gaps beyond `b`.
proof fn lemma_gap_dist(a: int, b: int, c: int)
    requires
        0 <= a < id_space(),
        0 <= b < id_space(),
        0 <= c < id_space(),
        clockwise_gap(a, b) <= clockwise_gap(a, c),
    ensures
        clockwise_dist(b, c) == clockwise_gap(a, c) - clockwise_gap(a, b),
{
}

/// Soundness of the walk's termination test: when `succ` is the ring
/// successor of `cand` among the members `ids` and `key` lies in the
/// clockwise interval from `cand` (exclusive) to `succ` (inclusive), then
/// `succ` owns `key` — for every key, the walk stops exactly at the member
/// with the smallest identifier at or after the key, circularly.
pub proof fn lemma_termination_test_finds_owner(ids: Set<int>, cand: int, succ: int, key: int)
    requires
        valid_ids(ids),
        0 <= cand < id_space(),
        0 <= key < id_space(),
        ids.contains(cand),
        is_ring_successor(ids, cand, succ),
        in_range_spec(key, cand, false, succ, true),
    ensures
        is_owner(ids, key, succ),
{
    lemma_in_range_gap(key, cand, succ);
    assert forall|t: int| #[trigger] ids.contains(t) implies clockwise_dist(key, succ) <= clockwise_dist(
        key,
        t,
    ) by {
        lemma_gap_dist(cand, key, succ);
        lemma_gap_dist(cand, key, t);
    }
}

/// A consistent ring, as the walk's soundness speaks of one: a membership
/// `ids` inside the identifier space, and a successor pointer for every
/// member that is its true ring successor.
pub open spec fn consistent_ring(ids: Set<int>, successor_of: Map<int, int>) -> bool {
    &&& valid_ids(ids)
    &&& forall|n: int|
        #[trigger] ids.contains(n) ==> successor_of.dom().contains(n) && is_ring_successor(
            ids,
            n,
            successor_of[n],
        )
}

/// The response is what the ring itself would answer to the walk's pending
/// request: a successor query returns the target's true successor, and a
/// closest-preceding-finger query returns some member (which member is the
/// remote node's own business — soundness does not depend on the choice).
pub open spec fn response_from_ring(
    ids: Set<int>,
    successor_of: Map<int, int>,
    lookup: Lookup,
    response: Response,
) -> bool {
    match lookup_request_spec(lookup) {
        Some((target, request)) => match request {
            Request::GetSuccessor { .. } => response matches Response::GetSuccessor { location }
                && location.identifier as int == successor_of[target.identifier as int],
            Request::ClosestPrecedingFinger { .. } => response matches Response::ClosestPrecedingFinger { location }
                && ids.contains(location.identifier as int),
            _ => true,
        },
        None => true,
    }
}

/// What a sound walk knows at each phase: the node it is about to ask is a
/// ring member; a predecessor found by the termination test owns the
/// interval up to its successor; a finished walk holds the key's owner.
pub open spec fn lookup_sound(ids: Set<int>, successor_of: Map<int, int>, lookup: Lookup) -> bool {
    match lookup.phase {
        LookupPhase::AskingSuccessor { candidate } => ids.contains(candidate.identifier as int),
        LookupPhase::AskingCloser { candidate } => ids.contains(candidate.identifier as int),
        LookupPhase::Finishing { predecessor } => ids.contains(predecessor.identifier as int)
            && in_range_spec(
            lookup.key as int,
            predecessor.identifier as int,
            false,
            successor_of[predecessor.identifier as int],
            true,
        ),
        LookupPhase::Done { successor } => is_owner(ids, lookup.key as int, successor.identifier as int),
    }
}

/// A walk started at any ring member is sound to begin with.
pub proof fn lemma_lookup_start_sound(
    ids: Set<int>,
    successor_of: Map<int, int>,
    start: Location,
    key: u32,
)
    requires
        ids.contains(start.identifier as int),
    ensures
        lookup_sound(
            ids,
            successor_of,
            Lookup { key, phase: LookupPhase::AskingSuccessor { candidate: start } },
        ),
{
}

/// Soundness of the whole walk: against a consistent ring that answers
/// truthfully, every step keeps the walk sound — so however many hops a
/// lookup takes and whichever fingers the queried nodes offer, the
/// location it finishes with owns the key: for every key, the member with
/// the smallest identifier at or after it, circularly.
pub proof fn lemma_lookup_step_preserves_soundness(
    ids: Set<int>,
    successor_of: Map<int, int>,
    lookup: Lookup,
    response: Response,
    next: Lookup,
)
    requires
        consistent_ring(ids, successor_of),
        lookup_sound(ids, successor_of, lookup),
        response_from_ring(ids, successor_of, lookup, response),
        lookup_step_spec(lookup, response) == Ok::<Lookup, Error>(next),
    ensures
        lookup_sound(ids, successor_of, next),
        next.key == lookup.key,
{
    match lookup.phase {
        LookupPhase::Finishing { predecessor } => {
            lemma_termination_test_finds_owner(
                ids,
                predecessor.identifier as int,
                successor_of[predecessor.identifier as int],
                lookup.key as int,
            );
        },
        _ => {},
    }
}

/// In a single-node ring, whose only member is its own successor, a
/// lookup started at that member resolves every key to it: the first
/// successor answer already satisfies the termination test, and the
/// finishing query returns the member itself.
pub proof fn lemma_lookup_single_node(node: Location, key: u32)
    ensures
        lookup_step_spec(
            Lookup { key, phase: LookupPhase::AskingSuccessor { candidate: node } },
            Response::GetSuccessor { location: node },
        ) == Ok::<Lookup, Error>(
            Lookup { key, phase: LookupPhase::Finishing { predecessor: node } },
        ),
        lookup_step_spec(
            Lookup { key, phase: LookupPhase::Finishing { predecessor: node } },
            Response::GetSuccessor { location: node },
        ) == Ok::<Lookup, Error>(Lookup { key, phase: LookupPhase::Done { successor: node } }),
{
}

} // verus!
