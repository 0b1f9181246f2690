//! Core protocol of a Chord-style distributed hash table: ring-interval
//! arithmetic over a fixed-width identifier space, the per-virtual-node
//! state a host keeps, the typed request/response vocabulary spoken between
//! nodes, the iterative successor lookup, and the join and stabilization
//! steps that keep successor and predecessor pointers converging as nodes
//! enter the ring.
//!
//! The wire transport and the per-node locks are the host process's
//! business: every network exchange surfaces here as a plain value handed
//! to a verified decision function.

pub mod arithmetic;
pub mod command;
pub mod constants;
pub mod location;
pub mod membership;
pub mod node;
pub mod process;
