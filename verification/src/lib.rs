//! A relay hub for paired peers: the connection registry, the transfer store
//! and the routing decisions of one connection's session.
//!
//! The hub decides; it performs no I/O. A caller owns the transport, hands
//! each inbound frame to the connection's [`session::Session`] and carries
//! out the deliveries that come back.

use vstd::prelude::*;

pub mod frame;
pub mod hub;
pub mod ident;
pub mod json;
pub mod laws;
pub mod message;
pub mod model;
pub mod registry;
pub mod session;
pub mod transfer;

verus! {

/// Seconds between two keepalive pings on one connection.
pub const KEEPALIVE_SECS: u64 = 30;

/// How many frames one connection's outbound queue holds before it is full.
pub const QUEUE_CAPACITY: usize = 100;

} // verus!
