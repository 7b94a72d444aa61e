use crate::caps::Caps;
use crate::status::Status;
use vstd::prelude::*;

verus! {

#[derive(Debug, Clone, Copy, PartialEq, Eq, Structural)]
pub struct PingRequest {}

#[derive(Debug, Clone, Copy, PartialEq, Eq, Structural)]
pub struct PingResponse {}

#[derive(Debug, Clone, Copy, PartialEq, Eq, Structural)]
pub struct GetStatusRequest {}

#[derive(Debug)]
pub struct GetStatusResponse {
    pub kaspa_monitor_version: String,
}

/// A change of state of one node, as it is handed to subscribers.
#[derive(Debug)]
pub enum Update {
    /// The node's latest status.
    Status { status: Status },
    /// The capabilities of the node behind the endpoint `uid`.
    Caps { uid: u64, caps: Caps },
}

/// What the hub sends to a subscriber.
#[derive(Debug)]
pub enum Notification {
    Update { update: Update },
}

} // verus!
