use crate::caps::Caps;
use crate::hex::{format_hex16, hex16};
use crate::network::{NetworkId, NetworkType};
use crate::status::Status;
use vstd::prelude::*;

verus! {

/// A system that nodes run on, as a subscriber sees it: the capabilities it
/// last reported.
pub struct Machine {
    caps: Caps,
}

impl Machine {
    /// The capabilities the machine last reported.
    pub closed spec fn view_caps(&self) -> Caps {
        self.caps
    }

    pub fn new(caps: Caps) -> (machine: Machine)
        ensures
            machine.view_caps() == caps,
    {
        Self { caps }
    }

    pub fn caps(&self) -> (caps: &Caps)
        ensures
            *caps == self.view_caps(),
    {
        &self.caps
    }

    pub fn set_caps(&mut self, caps: Caps)
        ensures
            final(self).view_caps() == caps,
    {
        self.caps = caps;
    }

    /// The machine's caption: its system identifier as sixteen hexadecimal
    /// digits.
    pub fn get_caption(&self) -> (caption: String)
        ensures
            caption@ == hex16(self.view_caps().system_id),
    {
        format_hex16(self.caps.system_id())
    }
}

/// A node as a subscriber sees it: the status it last reported.
pub struct Node {
    pub status: Status,
}

impl Node {
    /// The network a status belongs to. A Sparkle node reports none and
    /// counts as one of the main network.
    pub open spec fn network_of(status: Status) -> NetworkId {
        match status {
            Status::Kaspa(status) => status.network_id,
            Status::Sparkle(_) => NetworkId { network_type: NetworkType::Mainnet, suffix: None },
        }
    }

    pub fn new(status: Status) -> (node: Node)
        ensures
            node.status == status,
    {
        Self { status }
    }

    pub fn uid(&self) -> (uid: u64)
        ensures
            uid == self.status.spec_uid(),
    {
        self.status.uid()
    }

    pub fn network_id(&self) -> (network: NetworkId)
        ensures
            network == Self::network_of(self.status),
    {
        match &self.status {
            Status::Kaspa(status) => status.network_id,
            Status::Sparkle(_) => NetworkId::new(NetworkType::Mainnet),
        }
    }

    pub fn status(&self) -> (status: &Status)
        ensures
            *status == self.status,
    {
        &self.status
    }

    pub fn set_status(&mut self, status: Status)
        ensures
            final(self).status == status,
    {
        self.status = status;
    }
}

} // verus!
