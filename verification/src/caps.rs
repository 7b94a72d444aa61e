use crate::hex::{bytes_hex, to_hex};
use vstd::prelude::*;

verus! {

/// File descriptors a node keeps for its own peers and storage; they are
/// taken off the limit the node reports.
pub const FD_MARGIN: u64 = 1024;

/// The file descriptor limit assumed for a node that reports less than the
/// margin.
pub const FD_LIMIT_FLOOR: u64 = 32;

/// Client connections a node is taken to serve per physical core.
pub const SOCKETS_PER_CORE: u64 = 1024;

/// The static facts a node reports about itself.
#[derive(Debug)]
pub struct Caps {
    /// Version of the node software.
    pub version: String,
    /// Identifier of the system the node runs on.
    pub system_id: u64,
    /// Hash of the build, where the node reports one.
    pub git_hash: Option<String>,
    /// Memory of the system in bytes.
    pub total_memory: u64,
    /// Number of physical cores.
    pub cpu_physical_cores: u64,
    /// File descriptors available to client and peer connections.
    pub fd_limit: u64,
    /// Client connections the node may serve.
    pub clients_limit: u64,
}

impl Clone for Caps {
    fn clone(&self) -> (copy: Self)
        ensures
            copy == *self,
    {
        let git_hash = match &self.git_hash {
            Some(hash) => Some(hash.clone()),
            None => None,
        };
        Caps {
            version: self.version.clone(),
            system_id: self.system_id,
            git_hash,
            total_memory: self.total_memory,
            cpu_physical_cores: self.cpu_physical_cores,
            fd_limit: self.fd_limit,
            clients_limit: self.clients_limit,
        }
    }
}

/// The value of eight bytes read as a big-endian number.
pub open spec fn be_u64(bytes: Seq<u8>) -> int
    recommends
        bytes.len() >= 8,
{
    bytes[0] * 0x0100_0000_0000_0000 + bytes[1] * 0x0001_0000_0000_0000 + bytes[2]
        * 0x0000_0100_0000_0000 + bytes[3] * 0x0000_0001_0000_0000 + bytes[4] * 0x0100_0000
        + bytes[5] * 0x0001_0000 + bytes[6] * 0x0100 + bytes[7]
}

/// The system identifier held in a reported byte string: its first eight
/// bytes as a big-endian number, or zero where the node reports none or
/// fewer than eight bytes.
pub open spec fn system_id_of(reported: Option<Seq<u8>>) -> int {
    match reported {
        Some(bytes) => if bytes.len() >= 8 {
            be_u64(bytes)
        } else {
            0
        },
        None => 0,
    }
}

/// The file descriptors left for connections once the margin is taken off.
pub open spec fn usable_fd_limit(reported: int) -> int {
    if reported >= FD_MARGIN {
        reported - FD_MARGIN
    } else {
        FD_LIMIT_FLOOR as int
    }
}

impl Caps {
    pub fn system_id(&self) -> (id: u64)
        ensures
            id == self.system_id,
    {
        self.system_id
    }

    /// Derives a node's capabilities from the system information it reports.
    pub fn from_system_info(
        version: String,
        system_id: Option<Vec<u8>>,
        git_hash: Option<Vec<u8>>,
        cpu_physical_cores: u16,
        total_memory: u64,
        fd_limit: u32,
    ) -> (caps: Caps)
        ensures
            caps.version == version,
            caps.system_id == system_id_of(
                match system_id {
                    Some(bytes) => Some(bytes@),
                    None => None,
                },
            ),
            match git_hash {
                Some(bytes) => caps.git_hash.is_some() && caps.git_hash.unwrap()@ == bytes_hex(
                    bytes@,
                ),
                None => caps.git_hash.is_none(),
            },
            caps.total_memory == total_memory,
            caps.cpu_physical_cores == cpu_physical_cores,
            caps.fd_limit == usable_fd_limit(fd_limit as int),
            caps.clients_limit == cpu_physical_cores * SOCKETS_PER_CORE,
    {
        let cores: u64 = cpu_physical_cores as u64;
        let reported_fd_limit: u64 = fd_limit as u64;
        let fd_limit_actual: u64 = if reported_fd_limit >= FD_MARGIN {
            reported_fd_limit - FD_MARGIN
        } else {
            FD_LIMIT_FLOOR
        };
        let clients_limit: u64 = cores * SOCKETS_PER_CORE;
        let id: u64 = match &system_id {
            Some(bytes) => if bytes.len() >= 8 {
                read_be_u64(bytes.as_slice())
            } else {
                0
            },
            None => 0,
        };
        let git_hash = match &git_hash {
            Some(bytes) => Some(to_hex(bytes.as_slice())),
            None => None,
        };
        Caps {
            version,
            system_id: id,
            git_hash,
            total_memory,
            cpu_physical_cores: cores,
            fd_limit: fd_limit_actual,
            clients_limit,
        }
    }
}

/// Reads the first eight bytes of a slice as a big-endian number.
fn read_be_u64(bytes: &[u8]) -> (value: u64)
    requires
        bytes@.len() >= 8,
    ensures
        value == be_u64(bytes@),
{
    let b0: u64 = bytes[0] as u64;
    let b1: u64 = bytes[1] as u64;
    let b2: u64 = bytes[2] as u64;
    let b3: u64 = bytes[3] as u64;
    let b4: u64 = bytes[4] as u64;
    let b5: u64 = bytes[5] as u64;
    let b6: u64 = bytes[6] as u64;
    let b7: u64 = bytes[7] as u64;
    b0 * 0x0100_0000_0000_0000 + b1 * 0x0001_0000_0000_0000 + b2 * 0x0000_0100_0000_0000 + b3
        * 0x0000_0001_0000_0000 + b4 * 0x0100_0000 + b5 * 0x0001_0000 + b6 * 0x0100 + b7
}

} // verus!
