use crate::hash::{xxh3_64, xxh3_64_digest};
use crate::hex::{format_hex16, hex16};
use crate::network::NetworkId;
use crate::services::ServiceKind;
use crate::transport::{Transport, TransportKind};
use vstd::prelude::*;
use vstd::string::StringExecFns;
use vstd::utf8::encode_utf8;

verus! {

/// The text of a boolean flag as it enters a node's identity.
pub open spec fn flag_text(flag: bool) -> Seq<char> {
    if flag {
        "true"@
    } else {
        "false"@
    }
}

/// The text that identifies a physical node whatever the transport variant:
/// its domain name, its network and whether its sessions are secured.
pub open spec fn physical_node_text(fqdn: Seq<char>, network: NetworkId, tls: bool) -> Seq<char> {
    fqdn + network.text() + flag_text(tls)
}

/// The identifier of an endpoint: the digest of its address.
pub open spec fn endpoint_uid(address: Seq<char>) -> u64 {
    xxh3_64_digest(encode_utf8(address))
}

/// The identifier of the physical node behind an endpoint.
pub open spec fn physical_node_uid(fqdn: Seq<char>, network: NetworkId, tls: bool) -> u64 {
    xxh3_64_digest(encode_utf8(physical_node_text(fqdn, network, tls)))
}

/// One configured endpoint of a node. A configuration is never changed once it
/// is made; reconfiguration replaces it.
#[derive(Debug)]
pub struct NodeConfig {
    /// Identifier of the endpoint, derived from its address.
    pub uid: u64,
    /// The identifier as sixteen hexadecimal digits.
    pub uid_string: String,
    /// The service the node provides.
    pub service: ServiceKind,
    /// The address the endpoint is reached at.
    pub address: String,
    /// Protocol and encoding of the endpoint.
    pub transport_kind: TransportKind,
    /// The network the node takes part in.
    pub network: NetworkId,
    /// Whether the entry is enabled, where the configuration says so.
    pub enable: Option<bool>,
    /// The node's domain name.
    pub fqdn: String,
    /// Identifier of the physical node, shared by all its transport variants.
    pub network_node_uid: u64,
}

impl Clone for NodeConfig {
    fn clone(&self) -> (copy: Self)
        ensures
            copy == *self,
    {
        NodeConfig {
            uid: self.uid,
            uid_string: self.uid_string.clone(),
            service: self.service,
            address: self.address.clone(),
            transport_kind: self.transport_kind,
            network: self.network,
            enable: self.enable,
            fqdn: self.fqdn.clone(),
            network_node_uid: self.network_node_uid,
        }
    }
}

impl PartialEq for NodeConfig {
    fn eq(&self, other: &Self) -> (equal: bool) {
        self.uid == other.uid
    }
}

impl Eq for NodeConfig {

}

impl vstd::std_specs::cmp::PartialEqSpecImpl for NodeConfig {
    open spec fn obeys_eq_spec() -> bool {
        true
    }

    open spec fn eq_spec(&self, other: &Self) -> bool {
        self.uid == other.uid
    }
}

impl NodeConfig {
    /// Whether the derived fields agree with the fields they are derived from.
    pub open spec fn wf(&self) -> bool {
        self.uid_string@ == hex16(self.uid)
    }

    /// Makes the configuration of an endpoint, deriving the endpoint's
    /// identifier from its address and the physical node's identifier from
    /// the domain name, the network and the transport's security flag.
    pub fn new(
        service: &ServiceKind,
        network: NetworkId,
        transport: &Transport,
        fqdn: &str,
        address: &str,
    ) -> (node: NodeConfig)
        ensures
            node.wf(),
            node.uid == endpoint_uid(address@),
            node.network_node_uid == physical_node_uid(fqdn@, network, transport.tls),
            node.service == *service,
            node.network == network,
            node.transport_kind == transport.kind,
            node.fqdn@ == fqdn@,
            node.address@ == address@,
            node.enable.is_none(),
    {
        let uid = xxh3_64(address.as_bytes());
        let mut text = String::from_str(fqdn);
        let network_text = network.to_string();
        text.append(network_text.as_str());
        if transport.tls {
            text.append("true");
        } else {
            text.append("false");
        }
        let network_node_uid = xxh3_64(text.as_str().as_bytes());
        NodeConfig::from_parts(
            *service,
            network,
            transport.kind,
            String::from_str(fqdn),
            String::from_str(address),
            uid,
            network_node_uid,
        )
    }

    /// Assembles a configuration from identifiers that were already derived.
    pub fn from_parts(
        service: ServiceKind,
        network: NetworkId,
        transport_kind: TransportKind,
        fqdn: String,
        address: String,
        uid: u64,
        network_node_uid: u64,
    ) -> (node: NodeConfig)
        ensures
            node.wf(),
            node.uid == uid,
            node.network_node_uid == network_node_uid,
            node.service == service,
            node.network == network,
            node.transport_kind == transport_kind,
            node.fqdn == fqdn,
            node.address == address,
            node.enable.is_none(),
    {
        NodeConfig {
            uid,
            uid_string: format_hex16(uid),
            service,
            fqdn,
            address,
            transport_kind,
            network,
            enable: None,
            network_node_uid,
        }
    }

    #[inline]
    pub fn service(&self) -> (service: ServiceKind)
        ensures
            service == self.service,
    {
        self.service
    }

    #[inline]
    pub fn uid(&self) -> (uid: u64)
        ensures
            uid == self.uid,
    {
        self.uid
    }

    #[inline]
    pub fn transport_kind(&self) -> (kind: TransportKind)
        ensures
            kind == self.transport_kind,
    {
        self.transport_kind
    }

    #[inline]
    pub fn network_node_uid(&self) -> (uid: u64)
        ensures
            uid == self.network_node_uid,
    {
        self.network_node_uid
    }

    #[inline]
    pub fn uid_as_str(&self) -> (text: &str)
        ensures
            text@ == self.uid_string@,
    {
        self.uid_string.as_str()
    }

    #[inline]
    pub fn address(&self) -> (address: &str)
        ensures
            address@ == self.address@,
    {
        self.address.as_str()
    }

    /// Renders the configuration as `[uid] address`, the identifier in
    /// sixteen hexadecimal digits.
    pub fn to_string(&self) -> (text: String)
        ensures
            text@ == seq!['['] + hex16(self.uid) + seq![']', ' '] + self.address@,
    {
        let mut text = String::from_str("[");
        let uid = format_hex16(self.uid);
        text.append(uid.as_str());
        text.append("] ");
        text.append(self.address.as_str());
        proof {
            reveal_strlit("[");
            reveal_strlit("] ");
            assert("["@ =~= seq!['[']);
            assert("] "@ =~= seq![']', ' ']);
        }
        text
    }
}

} // verus!
