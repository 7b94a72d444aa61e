use vstd::prelude::*;

verus! {

/// The family of network a node takes part in.
#[derive(Debug, Clone, Copy, PartialEq, Eq, Structural, PartialOrd, Ord, Hash)]
pub enum NetworkType {
    Mainnet,
    Testnet,
    Devnet,
    Simnet,
}

impl NetworkType {
    /// The lower-case name of the network type.
    pub open spec fn name(self) -> Seq<char> {
        match self {
            NetworkType::Mainnet => "mainnet"@,
            NetworkType::Testnet => "testnet"@,
            NetworkType::Devnet => "devnet"@,
            NetworkType::Simnet => "simnet"@,
        }
    }
}

/// The decimal digit for a value below ten.
pub open spec fn decimal_digit(n: nat) -> char {
    seq!['0', '1', '2', '3', '4', '5', '6', '7', '8', '9'][(n % 10) as int]
}

/// A natural number in decimal, without leading zeros.
pub open spec fn decimal(n: nat) -> Seq<char>
    decreases n,
{
    if n < 10 {
        seq![decimal_digit(n)]
    } else {
        decimal(n / 10).push(decimal_digit(n % 10))
    }
}

/// The place of a network type in the order of the types.
pub open spec fn network_type_index(network_type: NetworkType) -> int {
    match network_type {
        NetworkType::Mainnet => 0,
        NetworkType::Testnet => 1,
        NetworkType::Devnet => 2,
        NetworkType::Simnet => 3,
    }
}

/// The number that stands for a network identity. Distinct identities have
/// distinct numbers, and the numbers are in the order of the identities: by
/// type first, an identity without suffix before those with one, then by
/// suffix.
pub open spec fn network_code(network: NetworkId) -> int {
    network_type_index(network.network_type) * 0x2_0000_0000 + match network.suffix {
        Some(suffix) => 0x1_0000_0000 + suffix,
        None => 0,
    }
}

/// Identifies a network: its type and, where the type has several instances,
/// the number of the instance.
#[derive(Debug, Clone, Copy, PartialEq, Eq, Structural, PartialOrd, Ord, Hash)]
pub struct NetworkId {
    pub network_type: NetworkType,
    pub suffix: Option<u32>,
}

impl NetworkId {
    /// The textual form of a network identity: the type's name, followed by a
    /// hyphen and the suffix in decimal where there is one.
    pub open spec fn text(self) -> Seq<char> {
        match self.suffix {
            Some(suffix) => self.network_type.name() + seq!['-'] + decimal(suffix as nat),
            None => self.network_type.name(),
        }
    }

    pub fn new(network_type: NetworkType) -> (id: NetworkId)
        ensures
            id.network_type == network_type,
            id.suffix.is_none(),
    {
        NetworkId { network_type, suffix: None }
    }

    pub fn with_suffix(network_type: NetworkType, suffix: u32) -> (id: NetworkId)
        ensures
            id.network_type == network_type,
            id.suffix == Some(suffix),
    {
        NetworkId { network_type, suffix: Some(suffix) }
    }

    /// Computes the number that stands for the identity.
    pub fn code(&self) -> (code: u64)
        ensures
            code == network_code(*self),
    {
        let index: u64 = match self.network_type {
            NetworkType::Mainnet => 0,
            NetworkType::Testnet => 1,
            NetworkType::Devnet => 2,
            NetworkType::Simnet => 3,
        };
        let low: u64 = match self.suffix {
            Some(suffix) => 0x1_0000_0000 + suffix as u64,
            None => 0,
        };
        index * 0x2_0000_0000 + low
    }

    /// Renders the identity as text, such as `mainnet` or `testnet-10`.
    pub fn to_string(&self) -> (s: String)
        ensures
            s@ == self.text(),
    {
        display_network_id(self.network_type, self.suffix)
    }
}

/// Calls the `Display` impl of `kaspa_consensus_core::network::NetworkId`,
/// which writes the network type's lower-case name and, for an identity with
/// a suffix, a hyphen and the suffix in decimal.
#[verifier::external_body]
fn display_network_id(network_type: NetworkType, suffix: Option<u32>) -> (s: String)
    ensures
        s@ == (NetworkId { network_type, suffix }).text(),
{
    let network_type = match network_type {
        NetworkType::Mainnet => kaspa_consensus_core::network::NetworkType::Mainnet,
        NetworkType::Testnet => kaspa_consensus_core::network::NetworkType::Testnet,
        NetworkType::Devnet => kaspa_consensus_core::network::NetworkType::Devnet,
        NetworkType::Simnet => kaspa_consensus_core::network::NetworkType::Simnet,
    };
    kaspa_consensus_core::network::NetworkId { network_type, suffix }.to_string()
}

} // verus!
