use crate::network::NetworkId;
use vstd::prelude::*;

verus! {

/// A 32-byte block hash.
pub type Hash = [u8; 32];

/// What a node reports of itself in one poll cycle.
#[derive(Debug)]
pub enum Status {
    Kaspa(Box<KaspaNodeStatus>),
    Sparkle(Box<SparkleNodeStatus>),
}

impl Status {
    /// The name of the service the status comes from.
    pub open spec fn service_name(self) -> Seq<char> {
        match self {
            Status::Kaspa(_) => "Kaspa"@,
            Status::Sparkle(_) => "Sparkle"@,
        }
    }

    /// The identifier of the endpoint the status was fetched through.
    pub open spec fn spec_uid(self) -> u64 {
        match self {
            Status::Kaspa(status) => status.uid,
            Status::Sparkle(status) => status.uid,
        }
    }

    /// The identifier of the system the reporting node runs on.
    pub open spec fn spec_sid(self) -> u64 {
        match self {
            Status::Kaspa(status) => status.sid,
            Status::Sparkle(status) => status.sid,
        }
    }

    /// The status as the connection of the endpoint `uid` hands it on: filed
    /// under that endpoint and the system identifier `sid`, and, where the
    /// status says so at all, with the sync state `synced`.
    pub open spec fn stamped_spec(self, uid: u64, sid: u64, synced: bool) -> Status {
        match self {
            Status::Kaspa(status) => Status::Kaspa(
                Box::new(KaspaNodeStatus { uid, sid, is_synced: synced, ..*status }),
            ),
            Status::Sparkle(_) => Status::Sparkle(Box::new(SparkleNodeStatus { sid, uid })),
        }
    }

    /// Files the status under the identity of the connection that fetched
    /// it.
    pub fn stamped(self, uid: u64, sid: u64, synced: bool) -> (stamped: Status)
        ensures
            stamped == self.stamped_spec(uid, sid, synced),
            stamped.spec_uid() == uid,
            stamped.spec_sid() == sid,
    {
        match self {
            Status::Kaspa(status) => {
                let KaspaNodeStatus {
                    sid: _,
                    uid: _,
                    is_synced: _,
                    network_id,
                    block_count,
                    header_count,
                    tip_hashes,
                    past_median_time,
                    virtual_parent_hashes,
                    pruning_point_hash,
                    virtual_daa_score,
                    sink,
                } = *status;
                Status::Kaspa(
                    Box::new(
                        KaspaNodeStatus {
                            sid,
                            uid,
                            is_synced: synced,
                            network_id,
                            block_count,
                            header_count,
                            tip_hashes,
                            past_median_time,
                            virtual_parent_hashes,
                            pruning_point_hash,
                            virtual_daa_score,
                            sink,
                        },
                    ),
                )
            },
            Status::Sparkle(_) => Status::Sparkle(Box::new(SparkleNodeStatus { sid, uid })),
        }
    }

    pub fn uid(&self) -> (uid: u64)
        ensures
            uid == self.spec_uid(),
    {
        match self {
            Status::Kaspa(status) => status.uid,
            Status::Sparkle(status) => status.uid,
        }
    }

    pub fn sid(&self) -> (sid: u64)
        ensures
            sid == self.spec_sid(),
    {
        match self {
            Status::Kaspa(status) => status.sid,
            Status::Sparkle(status) => status.sid,
        }
    }

    pub fn name(&self) -> (name: String)
        ensures
            name@ == self.service_name(),
    {
        match self {
            Status::Kaspa(_) => "Kaspa".to_string(),
            Status::Sparkle(_) => "Sparkle".to_string(),
        }
    }
}

impl From<KaspaNodeStatus> for Status {
    fn from(status: KaspaNodeStatus) -> (wrapped: Self) {
        Status::Kaspa(Box::new(status))
    }
}

impl vstd::std_specs::convert::FromSpecImpl<KaspaNodeStatus> for Status {
    open spec fn obeys_from_spec() -> bool {
        true
    }

    open spec fn from_spec(status: KaspaNodeStatus) -> Self {
        Status::Kaspa(Box::new(status))
    }
}

impl From<SparkleNodeStatus> for Status {
    fn from(status: SparkleNodeStatus) -> (wrapped: Self) {
        Status::Sparkle(Box::new(status))
    }
}

impl vstd::std_specs::convert::FromSpecImpl<SparkleNodeStatus> for Status {
    open spec fn obeys_from_spec() -> bool {
        true
    }

    open spec fn from_spec(status: SparkleNodeStatus) -> Self {
        Status::Sparkle(Box::new(status))
    }
}

/// The status of a Kaspa node: who reports, whether it is synced, and where
/// its block DAG stands.
#[derive(Debug)]
pub struct KaspaNodeStatus {
    pub sid: u64,
    pub uid: u64,
    pub is_synced: bool,
    pub network_id: NetworkId,
    pub block_count: u64,
    pub header_count: u64,
    pub tip_hashes: Vec<Hash>,
    pub past_median_time: u64,
    pub virtual_parent_hashes: Vec<Hash>,
    pub pruning_point_hash: Hash,
    pub virtual_daa_score: u64,
    pub sink: Hash,
}

/// The status of a Sparkle node.
#[derive(Debug)]
pub struct SparkleNodeStatus {
    pub sid: u64,
    pub uid: u64,
}

} // verus!
