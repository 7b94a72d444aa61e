use crate::network::{network_code, network_type_index, NetworkId};
use vstd::prelude::*;

verus! {

/// Identifies a physical node whatever endpoint it was reached through: the
/// system identifier it reports and the network it takes part in. It is known
/// only once a connection has fetched the node's capabilities.
#[derive(Debug, Clone, Copy, PartialEq, Eq, Structural, Hash)]
pub struct Delegate {
    pub system_id: u64,
    pub network_id: NetworkId,
}

impl Delegate {
    /// The pair of numbers a key is filed under in the registry.
    pub open spec fn key(self) -> (u64, u64) {
        (self.system_id, network_code(self.network_id) as u64)
    }

    pub fn new(system_id: u64, network_id: NetworkId) -> (delegate: Delegate)
        ensures
            delegate.system_id == system_id,
            delegate.network_id == network_id,
    {
        Delegate { system_id, network_id }
    }

    /// Computes the pair of numbers the key is filed under.
    pub fn registry_key(&self) -> (key: (u64, u64))
        ensures
            key == self.key(),
    {
        (self.system_id, self.network_id.code())
    }

    /// Two keys are filed under the same pair of numbers only if they are the
    /// same key.
    pub proof fn lemma_key_injective(a: Delegate, b: Delegate)
        requires
            a.key() == b.key(),
        ensures
            a == b,
    {
        let ca = network_code(a.network_id);
        let cb = network_code(b.network_id);
        assert(0 <= ca < 0x8_0000_0000);
        assert(0 <= cb < 0x8_0000_0000);
        assert(ca == cb);
        assert(network_type_index(a.network_id.network_type) == network_type_index(
            b.network_id.network_type,
        ));
        assert(a.network_id.suffix == b.network_id.suffix);
    }
}

} // verus!
