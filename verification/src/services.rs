use vstd::prelude::*;

verus! {

/// The kind of node service an endpoint belongs to.
#[derive(Debug, Clone, Copy, PartialEq, Eq, Structural, PartialOrd, Ord, Hash)]
pub enum ServiceKind {
    Kaspa,
    Sparkle,
}

impl ServiceKind {
    /// The lower-case name of the service, as it is written in configuration.
    pub open spec fn name(self) -> Seq<char> {
        match self {
            ServiceKind::Kaspa => "kaspa"@,
            ServiceKind::Sparkle => "sparkle"@,
        }
    }

    /// Renders the service kind as its configuration name.
    pub fn to_string(&self) -> (s: String)
        ensures
            s@ == self.name(),
    {
        match self {
            ServiceKind::Kaspa => "kaspa".to_string(),
            ServiceKind::Sparkle => "sparkle".to_string(),
        }
    }
}

} // verus!
