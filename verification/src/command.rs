//! The typed vocabulary of the remote protocol, and the failure taxonomy.
//!
//! A request is addressed to one virtual node of a remote host; each
//! request kind owes a response of the matching variant, and receiving any
//! other variant is a protocol error naming the request kind that failed.

use vstd::prelude::*;
use crate::location::Location;

verus! {

/// The four request kinds a node can send around the ring.
#[derive(Clone, Copy, PartialEq, Eq, Structural, Debug)]
pub enum RequestKind {
    GetSuccessor,
    GetPredecessor,
    ClosestPrecedingFinger,
    Notify,
}

/// A typed request to the virtual node `virtual_node_id` of some host.
#[derive(Clone, Copy, Debug)]
pub enum Request {
    GetSuccessor { virtual_node_id: u8 },
    GetPredecessor { virtual_node_id: u8 },
    ClosestPrecedingFinger { virtual_node_id: u8, key: u32 },
    Notify { virtual_node_id: u8, notifier: Location },
}

/// The response owed to each request kind. A `Notify` response carries
/// nothing this core reads: outgoing notify is fire-and-forget.
#[derive(Clone, Copy, Debug)]
pub enum Response {
    GetSuccessor { location: Location },
    GetPredecessor { location: Location },
    ClosestPrecedingFinger { location: Location },
    Notify,
}

/// Everything that can go wrong in one protocol call.
#[derive(Clone, Copy, PartialEq, Eq, Structural, Debug)]
pub enum Error {
    /// A virtual node was asked to stabilize before it ever learned a
    /// successor: a node that has not joined cannot stabilize.
    NoSuccessor,
    /// A syntactically valid response arrived, but not the variant owed to
    /// the named request kind: a malformed or incompatible peer.
    UnexpectedResponse(RequestKind),
    /// The transport could not complete a request/response exchange. The
    /// ring logic never produces this itself; the host's transport does.
    Communication,
}

/// The request that asks `target` for the successor of the addressed
/// virtual node.
pub fn get_successor_request(target: &Location) -> (r: Request)
    ensures
        r == (Request::GetSuccessor { virtual_node_id: target.virtual_node_id }),
{
    Request::GetSuccessor { virtual_node_id: target.virtual_node_id }
}

/// The request that asks `target` for the predecessor of the addressed
/// virtual node.
pub fn get_predecessor_request(target: &Location) -> (r: Request)
    ensures
        r == (Request::GetPredecessor { virtual_node_id: target.virtual_node_id }),
{
    Request::GetPredecessor { virtual_node_id: target.virtual_node_id }
}

/// The request that asks `target` for the closest node it knows of that
/// precedes `key`.
pub fn closest_preceding_finger_request(target: &Location, key: u32) -> (r: Request)
    ensures
        r == (Request::ClosestPrecedingFinger {
            virtual_node_id: target.virtual_node_id,
            key,
        }),
{
    Request::ClosestPrecedingFinger { virtual_node_id: target.virtual_node_id, key }
}

/// The request that offers `local` to `target` as a predecessor candidate;
/// whether to accept it is the receiving handler's decision alone.
pub fn notify_request(local: &Location, target: &Location) -> (r: Request)
    ensures
        r == (Request::Notify { virtual_node_id: target.virtual_node_id, notifier: *local }),
{
    Request::Notify { virtual_node_id: target.virtual_node_id, notifier: *local }
}

/// Unwraps the response owed to a `GetSuccessor` request: the successor's
/// location on the matching variant, a protocol error naming the request
/// kind on any other.
pub fn expect_successor(response: Response) -> (r: Result<Location, Error>)
    ensures
        r == (match response {
            Response::GetSuccessor { location } => Ok::<Location, Error>(location),
            _ => Err::<Location, Error>(Error::UnexpectedResponse(RequestKind::GetSuccessor)),
        }),
{
    match response {
        Response::GetSuccessor { location } => Ok(location),
        _ => Err(Error::UnexpectedResponse(RequestKind::GetSuccessor)),
    }
}

/// Unwraps the response owed to a `GetPredecessor` request.
pub fn expect_predecessor(response: Response) -> (r: Result<Location, Error>)
    ensures
        r == (match response {
            Response::GetPredecessor { location } => Ok::<Location, Error>(location),
            _ => Err::<Location, Error>(Error::UnexpectedResponse(RequestKind::GetPredecessor)),
        }),
{
    match response {
        Response::GetPredecessor { location } => Ok(location),
        _ => Err(Error::UnexpectedResponse(RequestKind::GetPredecessor)),
    }
}

/// Unwraps the response owed to a `ClosestPrecedingFinger` request.
pub fn expect_closest_preceding_finger(response: Response) -> (r: Result<Location, Error>)
    ensures
        r == (match response {
            Response::ClosestPrecedingFinger { location } => Ok::<Location, Error>(location),
            _ => Err::<Location, Error>(
                Error::UnexpectedResponse(RequestKind::ClosestPrecedingFinger),
            ),
        }),
{
    match response {
        Response::ClosestPrecedingFinger { location } => Ok(location),
        _ => Err(Error::UnexpectedResponse(RequestKind::ClosestPrecedingFinger)),
    }
}

} // verus!
