use crate::transport::TransportKind;
use vstd::prelude::*;

verus! {

/// What can go wrong in the hub and its connections.
#[derive(Debug, Clone, Copy, PartialEq, Eq, Structural)]
pub enum Error {
    /// A call to the node failed.
    Rpc,
    /// The node's sync state could not be fetched.
    Status,
    /// The node's status snapshot could not be fetched.
    Metrics,
    /// An answer arrived that the health check under way was not waiting
    /// for.
    Unexpected,
    /// No client exists for the transport of an endpoint.
    UnsupportedTransport(TransportKind),
}

impl Error {
    /// The message of the error.
    pub open spec fn message(self) -> Seq<char> {
        match self {
            Error::Rpc => "RPC error"@,
            Error::Status => "Could not obtain status"@,
            Error::Metrics => "Could not obtain metrics"@,
            Error::Unexpected => "Unexpected response"@,
            Error::UnsupportedTransport(kind) => "Unsupported transport: "@ + kind.name(),
        }
    }

    /// Renders the error as its message.
    pub fn to_string(&self) -> (text: String)
        ensures
            text@ == self.message(),
    {
        match self {
            Error::Rpc => "RPC error".to_string(),
            Error::Status => "Could not obtain status".to_string(),
            Error::Metrics => "Could not obtain metrics".to_string(),
            Error::Unexpected => "Unexpected response".to_string(),
            Error::UnsupportedTransport(kind) => {
                let name = kind.to_string();
                "Unsupported transport: ".to_string().concat(name.as_str())
            },
        }
    }
}

} // verus!
