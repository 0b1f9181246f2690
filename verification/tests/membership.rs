//! Join and stabilization rounds, with the remote answers scripted.

use chord_ring::command::{
    notify_request, expect_predecessor, Error, Request, RequestKind, Response,
};
use chord_ring::location::{Address, Location};
use chord_ring::membership::{join_commit, stabilize_commit, stabilize_read};
use chord_ring::node::{NodeList, VirtualNodeState};
use chord_ring::process::{lookup_request, lookup_result, lookup_start, lookup_step};

fn loc_at(identifier: u32, ip: u32, virtual_node_id: u8) -> Location {
    Location::new(identifier, Address { ip, port: 9000 }, virtual_node_id)
}

/// Resolves `key` against a single-node ring: the only member answers
/// every successor query with itself.
fn resolve_against_single_node(bootstrap: &Location, key: u32) -> Location {
    let mut lookup = lookup_start(bootstrap, key);
    let mut hops: usize = 0;
    while let Some((_target, request)) = lookup_request(&lookup) {
        match request {
            Request::GetSuccessor { .. } => {
                lookup = lookup_step(lookup, Response::GetSuccessor { location: *bootstrap })
                    .unwrap();
            }
            _ => panic!("a single-node lookup only ever asks for successors"),
        }
        hops += 1;
        assert!(hops <= 4, "lookup did not converge");
    }
    lookup_result(&lookup).unwrap()
}

#[test]
fn join_against_single_node_ring() {
    let bootstrap = loc_at(100, 1, 0);
    let mut node = VirtualNodeState::new(loc_at(30, 2, 2));
    // The node resolves its own identifier through the bootstrap peer ...
    let owner = resolve_against_single_node(&bootstrap, node.own_identifier());
    assert_eq!(owner, bootstrap);
    // ... and records the answer: successor set, predecessor still unknown.
    join_commit(&mut node, owner);
    assert!(node.predecessor.is_none());
    assert_eq!(node.successor, Some(bootstrap));
    assert_eq!(node.location.identifier, 30);
}

#[test]
fn stabilize_adopts_a_closer_successor_and_notifies_it() {
    let own = loc_at(0, 1, 0);
    let successor = loc_at(100, 2, 0);
    let between = loc_at(50, 3, 0);
    let mut node = VirtualNodeState::new(own);
    node.successor = Some(successor);

    let (local, read_successor) = stabilize_read(&node).unwrap();
    assert_eq!(local, own);
    assert_eq!(read_successor, successor);

    // The successor reports a predecessor strictly between the two.
    let reported = expect_predecessor(Response::GetPredecessor { location: between }).unwrap();
    let mut notifies: Vec<Request> = Vec::new();
    let target = stabilize_commit(&mut node, local, read_successor, reported);
    notifies.push(notify_request(&local, &target));

    assert_eq!(node.successor, Some(between));
    assert_eq!(target, between);
    assert_eq!(notifies.len(), 1);
    assert!(matches!(
        notifies[0],
        Request::Notify { virtual_node_id: 0, notifier } if notifier == own
    ));
}

#[test]
fn stabilize_keeps_a_correct_successor() {
    let own = loc_at(0, 1, 0);
    let successor = loc_at(100, 2, 0);
    let outside = loc_at(150, 3, 0);
    let mut node = VirtualNodeState::new(own);
    node.successor = Some(successor);

    let (local, read_successor) = stabilize_read(&node).unwrap();
    // The reported predecessor lies beyond the successor, not between.
    let target = stabilize_commit(&mut node, local, read_successor, outside);
    assert_eq!(target, successor);
    assert_eq!(node.successor, Some(successor));
    assert!(node.predecessor.is_none());
}

#[test]
fn stabilize_twice_changes_nothing_on_a_converged_ring() {
    // Converged pair: the successor's predecessor is this node itself.
    let own = loc_at(0, 1, 0);
    let successor = loc_at(100, 2, 0);
    let mut node = VirtualNodeState::new(own);
    node.successor = Some(successor);

    for _round in 0..2 {
        let (local, read_successor) = stabilize_read(&node).unwrap();
        // With no intervening ring change the successor keeps reporting
        // the same predecessor: this node.
        let target = stabilize_commit(&mut node, local, read_successor, own);
        assert_eq!(target, successor);
        assert_eq!(node.successor, Some(successor));
        assert!(node.predecessor.is_none());
    }
}

#[test]
fn stabilize_without_a_successor_is_a_configuration_error() {
    let node = VirtualNodeState::new(loc_at(7, 1, 0));
    assert_eq!(stabilize_read(&node).unwrap_err(), Error::NoSuccessor);
}

#[test]
fn wrong_variant_for_get_predecessor_is_a_protocol_error() {
    let somewhere = loc_at(3, 1, 0);
    let wrong = Response::GetSuccessor { location: somewhere };
    assert_eq!(
        expect_predecessor(wrong).unwrap_err(),
        Error::UnexpectedResponse(RequestKind::GetPredecessor)
    );
}

#[test]
fn node_list_starts_fresh() {
    let locations = vec![loc_at(10, 1, 0), loc_at(20, 1, 1), loc_at(30, 1, 2)];
    let list = NodeList::new(locations.clone());
    assert_eq!(list.node_list.len(), 3);
    for (i, node) in list.node_list.iter().enumerate() {
        assert_eq!(node.location, locations[i]);
        assert!(node.predecessor.is_none());
        assert!(node.successor.is_none());
    }
}

#[test]
fn locations_compare_by_identifier_and_address() {
    let a = loc_at(5, 1, 0);
    let same_node_other_slot = loc_at(5, 1, 3);
    let other_host = loc_at(5, 2, 0);
    let other_id = loc_at(6, 1, 0);
    assert_eq!(a, same_node_other_slot);
    assert_ne!(a, other_host);
    assert_ne!(a, other_id);
}
