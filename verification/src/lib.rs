//! Server-side state-synchronization core of a collaborative drawing room.
//!
//! A room holds a set of shared figures, the registry of connected users,
//! each user's selection of figures and each user's in-progress drag anchor.
//! The room actor applies one inbound message at a time to this state and
//! emits outbound deliveries (unicast, broadcast, broadcast-except) as plain
//! values; the transport layer around the library performs the actual sends.

pub mod base;
pub mod deletion;
pub mod figure;
pub mod id_set;
pub mod message;
pub mod registry;
pub mod room;
pub mod selection;
pub mod user;
pub mod user_map;
pub mod workspace;
pub mod workspace_data;

use vstd::prelude::*;

verus! {

} // verus!
