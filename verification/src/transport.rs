use vstd::prelude::*;

verus! {

/// The protocol and encoding an endpoint is reached with.
#[derive(Debug, Clone, Copy, PartialEq, Eq, Structural, PartialOrd, Ord, Hash)]
pub enum TransportKind {
    WrpcBorsh,
    WrpcJson,
    Grpc,
}

impl TransportKind {
    /// The configuration name of the transport.
    pub open spec fn name(self) -> Seq<char> {
        match self {
            TransportKind::WrpcBorsh => "wrpc-borsh"@,
            TransportKind::WrpcJson => "wrpc-json"@,
            TransportKind::Grpc => "grpc"@,
        }
    }

    /// Renders the transport kind as its configuration name.
    pub fn to_string(&self) -> (s: String)
        ensures
            s@ == self.name(),
    {
        match self {
            TransportKind::WrpcBorsh => "wrpc-borsh".to_string(),
            TransportKind::WrpcJson => "wrpc-json".to_string(),
            TransportKind::Grpc => "grpc".to_string(),
        }
    }
}

/// How one endpoint of a node is exposed: the transport variant and whether
/// the session is secured.
#[derive(Debug, Clone, Copy, PartialEq, Eq, Structural, Hash)]
pub struct Transport {
    pub kind: TransportKind,
    pub tls: bool,
}

impl Transport {
    pub fn new(kind: TransportKind, tls: bool) -> (t: Transport)
        ensures
            t.kind == kind,
            t.tls == tls,
    {
        Transport { kind, tls }
    }
}

} // verus!
