use kaspa_monitor::caps::{Caps, FD_LIMIT_FLOOR, FD_MARGIN, SOCKETS_PER_CORE};
use kaspa_monitor::machine::{Machine, Node};
use kaspa_monitor::network::{NetworkId, NetworkType};
use kaspa_monitor::status::{KaspaNodeStatus, SparkleNodeStatus, Status};

fn info(system_id: Option<Vec<u8>>, git_hash: Option<Vec<u8>>, cores: u16, fd_limit: u32) -> Caps {
    Caps::from_system_info("1.0.0".to_string(), system_id, git_hash, cores, 1 << 34, fd_limit)
}

#[test]
fn system_id_is_read_big_endian() {
    let caps = info(Some(vec![0x01, 0x02, 0x03, 0x04, 0x05, 0x06, 0x07, 0x08]), None, 1, 4096);
    assert_eq!(caps.system_id, 0x0102030405060708);
    assert_eq!(caps.system_id(), 0x0102030405060708);
}

#[test]
fn system_id_takes_the_first_eight_bytes() {
    let caps = info(Some(vec![0xff, 0, 0, 0, 0, 0, 0, 1, 0xaa, 0xbb]), None, 1, 4096);
    assert_eq!(caps.system_id, 0xff00000000000001);
    let top = info(Some(vec![0xff; 32]), None, 1, 4096);
    assert_eq!(top.system_id, u64::MAX);
}

#[test]
fn missing_or_short_system_id_is_zero() {
    assert_eq!(info(None, None, 1, 4096).system_id, 0);
    assert_eq!(info(Some(vec![]), None, 1, 4096).system_id, 0);
    assert_eq!(info(Some(vec![1, 2, 3, 4, 5, 6, 7]), None, 1, 4096).system_id, 0);
}

#[test]
fn fd_limit_leaves_the_margin() {
    assert_eq!(FD_MARGIN, 1024);
    assert_eq!(FD_LIMIT_FLOOR, 32);
    assert_eq!(info(None, None, 1, 4096).fd_limit, 3072);
    assert_eq!(info(None, None, 1, 1025).fd_limit, 1);
    assert_eq!(info(None, None, 1, 1024).fd_limit, 0);
    assert_eq!(info(None, None, 1, 1023).fd_limit, 32);
    assert_eq!(info(None, None, 1, 0).fd_limit, 32);
    assert_eq!(info(None, None, 1, u32::MAX).fd_limit, u32::MAX as u64 - 1024);
}

#[test]
fn clients_limit_counts_per_core() {
    assert_eq!(SOCKETS_PER_CORE, 1024);
    assert_eq!(info(None, None, 0, 4096).clients_limit, 0);
    assert_eq!(info(None, None, 1, 4096).clients_limit, 1024);
    assert_eq!(info(None, None, 8, 4096).clients_limit, 8192);
    assert_eq!(info(None, None, u16::MAX, 4096).clients_limit, 65535 * 1024);
    assert_eq!(info(None, None, 8, 4096).cpu_physical_cores, 8);
}

#[test]
fn git_hash_is_rendered_in_hex() {
    assert_eq!(info(None, None, 1, 4096).git_hash, None);
    assert_eq!(info(None, Some(vec![]), 1, 4096).git_hash, Some(String::new()));
    assert_eq!(
        info(None, Some(vec![0x00, 0x0f, 0xa5, 0xff]), 1, 4096).git_hash,
        Some("000fa5ff".to_string())
    );
}

#[test]
fn other_fields_are_taken_over() {
    let caps = info(None, None, 1, 4096);
    assert_eq!(caps.version, "1.0.0");
    assert_eq!(caps.total_memory, 1 << 34);
    let copy = caps.clone();
    assert_eq!(copy.version, "1.0.0");
    assert_eq!(copy.fd_limit, 3072);
    assert_eq!(copy.git_hash, None);
}

#[test]
fn machine_caption_is_the_system_id_in_hex() {
    let caps = info(Some(vec![0, 0, 0, 0, 0, 0, 0xbe, 0xef]), None, 1, 4096);
    let mut machine = Machine::new(caps);
    assert_eq!(machine.get_caption(), "000000000000beef");
    assert_eq!(machine.caps().system_id(), 0xbeef);
    machine.set_caps(info(Some(vec![0x10, 0, 0, 0, 0, 0, 0, 0]), None, 2, 4096));
    assert_eq!(machine.get_caption(), "1000000000000000");
    assert_eq!(machine.caps().cpu_physical_cores, 2);
}

fn kaspa_status(sid: u64, uid: u64) -> Status {
    Status::from(KaspaNodeStatus {
        sid,
        uid,
        is_synced: true,
        network_id: NetworkId::with_suffix(NetworkType::Testnet, 10),
        block_count: 10,
        header_count: 11,
        tip_hashes: vec![[1u8; 32]],
        past_median_time: 12,
        virtual_parent_hashes: vec![[2u8; 32]],
        pruning_point_hash: [3u8; 32],
        virtual_daa_score: 13,
        sink: [4u8; 32],
    })
}

#[test]
fn status_reports_its_origin() {
    let kaspa = kaspa_status(7, 9);
    assert_eq!(kaspa.sid(), 7);
    assert_eq!(kaspa.uid(), 9);
    assert_eq!(kaspa.name(), "Kaspa");
    assert!(matches!(kaspa, Status::Kaspa(_)));
    let sparkle = Status::from(SparkleNodeStatus { sid: 1, uid: 2 });
    assert_eq!(sparkle.sid(), 1);
    assert_eq!(sparkle.uid(), 2);
    assert_eq!(sparkle.name(), "Sparkle");
    assert!(matches!(sparkle, Status::Sparkle(_)));
}

#[test]
fn a_status_is_filed_under_the_identity_it_is_stamped_with() {
    let stamped = kaspa_status(7, 9).stamped(100, 200, false);
    assert_eq!(stamped.uid(), 100);
    assert_eq!(stamped.sid(), 200);
    match stamped {
        Status::Kaspa(status) => {
            assert!(!status.is_synced);
            assert_eq!(status.block_count, 10);
            assert_eq!(status.header_count, 11);
            assert_eq!(status.tip_hashes, vec![[1u8; 32]]);
            assert_eq!(status.past_median_time, 12);
            assert_eq!(status.virtual_parent_hashes, vec![[2u8; 32]]);
            assert_eq!(status.pruning_point_hash, [3u8; 32]);
            assert_eq!(status.virtual_daa_score, 13);
            assert_eq!(status.sink, [4u8; 32]);
            assert_eq!(status.network_id, NetworkId::with_suffix(NetworkType::Testnet, 10));
        }
        Status::Sparkle(_) => panic!("the status is a Kaspa status"),
    }
    let sparkle = Status::from(SparkleNodeStatus { sid: 1, uid: 2 }).stamped(3, 4, true);
    assert_eq!(sparkle.uid(), 3);
    assert_eq!(sparkle.sid(), 4);
    assert!(matches!(sparkle, Status::Sparkle(_)));
}

#[test]
fn node_follows_its_status() {
    let mut node = Node::new(kaspa_status(7, 9));
    assert_eq!(node.uid(), 9);
    assert_eq!(node.network_id(), NetworkId::with_suffix(NetworkType::Testnet, 10));
    assert_eq!(node.status().sid(), 7);
    node.set_status(Status::from(SparkleNodeStatus { sid: 1, uid: 2 }));
    assert_eq!(node.uid(), 2);
    assert_eq!(node.network_id(), NetworkId::new(NetworkType::Mainnet));
}
