use crate::caps::Caps;
use crate::status::Status;
use vstd::prelude::*;

verus! {

/// What the hub's loop reacts to.
#[derive(Debug)]
pub enum Event {
    /// The hub has started: load the configuration, falling back to the
    /// local copy where the source fails.
    Start,
    /// The update period has passed: load the configuration again, falling
    /// back likewise.
    Update,
    /// A connection has fetched a node's status.
    Status { status: Status },
    /// A connection has learnt a node's capabilities.
    Caps { uid: u64, caps: Caps },
}

} // verus!
