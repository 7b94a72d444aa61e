use kaspa_monitor::caps::Caps;
use kaspa_monitor::client::{sort_nodes, Core};
use kaspa_monitor::machine::Node;
use kaspa_monitor::message::Update;
use kaspa_monitor::network::{NetworkId, NetworkType};
use kaspa_monitor::status::{KaspaNodeStatus, SparkleNodeStatus, Status};

fn caps(system_id: u64, cores: u64) -> Caps {
    Caps {
        version: "1.0.0".to_string(),
        system_id,
        git_hash: None,
        total_memory: 0,
        cpu_physical_cores: cores,
        fd_limit: 1000,
        clients_limit: 4096,
    }
}

fn kaspa(sid: u64, uid: u64, network_id: NetworkId, score: u64) -> Status {
    Status::from(KaspaNodeStatus {
        sid,
        uid,
        is_synced: true,
        network_id,
        block_count: 0,
        header_count: 0,
        tip_hashes: vec![],
        past_median_time: 0,
        virtual_parent_hashes: vec![],
        pruning_point_hash: [0u8; 32],
        virtual_daa_score: score,
        sink: [0u8; 32],
    })
}

fn score(node: &Node) -> u64 {
    match node.status() {
        Status::Kaspa(status) => status.virtual_daa_score,
        Status::Sparkle(_) => 0,
    }
}

fn uids(core: &Core, sid: u64) -> Vec<u64> {
    core.nodes(sid).map(|group| group.iter().map(|node| node.uid()).collect()).unwrap_or_default()
}

const MAINNET: NetworkId = NetworkId { network_type: NetworkType::Mainnet, suffix: None };
const TESTNET_10: NetworkId = NetworkId { network_type: NetworkType::Testnet, suffix: Some(10) };
const TESTNET_11: NetworkId = NetworkId { network_type: NetworkType::Testnet, suffix: Some(11) };
const DEVNET: NetworkId = NetworkId { network_type: NetworkType::Devnet, suffix: None };
const SIMNET: NetworkId = NetworkId { network_type: NetworkType::Simnet, suffix: None };

#[test]
fn new_core_knows_nothing() {
    let core = Core::new();
    assert!(core.systems().is_empty());
    assert!(core.nodes(1).is_none());
    assert!(core.machine(1).is_none());
}

#[test]
fn caps_make_and_replace_machines() {
    let mut core = Core::new();
    core.handle_update(Update::Caps { uid: 5, caps: caps(42, 4) });
    core.handle_update(Update::Caps { uid: 6, caps: caps(43, 8) });
    assert_eq!(core.machine(42).unwrap().caps().cpu_physical_cores, 4);
    assert_eq!(core.machine(43).unwrap().caps().cpu_physical_cores, 8);
    assert_eq!(core.machine(42).unwrap().get_caption(), "000000000000002a");
    core.handle_update(Update::Caps { uid: 7, caps: caps(42, 16) });
    assert_eq!(core.machine(42).unwrap().caps().cpu_physical_cores, 16);
    assert_eq!(core.machine(43).unwrap().caps().cpu_physical_cores, 8);
    assert!(core.nodes(42).is_none());
}

#[test]
fn statuses_are_grouped_by_system() {
    let mut core = Core::new();
    core.handle_update(Update::Status { status: kaspa(1, 10, MAINNET, 0) });
    core.handle_update(Update::Status { status: kaspa(2, 20, MAINNET, 0) });
    core.handle_update(Update::Status { status: kaspa(1, 11, MAINNET, 0) });
    assert_eq!(uids(&core, 1), vec![10, 11]);
    assert_eq!(uids(&core, 2), vec![20]);
    let mut systems = core.systems();
    systems.sort();
    assert_eq!(systems, vec![1, 2]);
    assert!(core.nodes(3).is_none());
    assert!(core.machine(1).is_none());
}

#[test]
fn a_status_of_a_known_node_replaces_the_old_one_in_place() {
    let mut core = Core::new();
    core.handle_update(Update::Status { status: kaspa(1, 10, MAINNET, 100) });
    core.handle_update(Update::Status { status: kaspa(1, 11, MAINNET, 200) });
    core.handle_update(Update::Status { status: kaspa(1, 10, MAINNET, 300) });
    assert_eq!(uids(&core, 1), vec![10, 11]);
    let group = core.nodes(1).unwrap();
    assert_eq!(score(&group[0]), 300);
    assert_eq!(score(&group[1]), 200);
}

#[test]
fn new_nodes_are_put_in_the_order_of_their_networks() {
    let mut core = Core::new();
    core.handle_update(Update::Status { status: kaspa(1, 1, SIMNET, 0) });
    core.handle_update(Update::Status { status: kaspa(1, 2, TESTNET_11, 0) });
    core.handle_update(Update::Status { status: kaspa(1, 3, MAINNET, 0) });
    core.handle_update(Update::Status { status: kaspa(1, 4, DEVNET, 0) });
    core.handle_update(Update::Status { status: kaspa(1, 5, TESTNET_10, 0) });
    core.handle_update(Update::Status { status: Status::from(SparkleNodeStatus { sid: 1, uid: 6 }) });
    core.handle_update(Update::Status { status: kaspa(1, 7, MAINNET, 0) });
    // Mainnet first (a Sparkle node counts as mainnet), equal networks in
    // the order of arrival.
    assert_eq!(uids(&core, 1), vec![3, 6, 7, 5, 2, 4, 1]);
}

#[test]
fn a_replaced_status_is_sorted_with_the_next_new_node() {
    let mut core = Core::new();
    core.handle_update(Update::Status { status: kaspa(1, 1, MAINNET, 0) });
    core.handle_update(Update::Status { status: kaspa(1, 2, TESTNET_10, 0) });
    // The first node moves to another network; the group is left as it is.
    core.handle_update(Update::Status { status: kaspa(1, 1, SIMNET, 0) });
    assert_eq!(uids(&core, 1), vec![1, 2]);
    core.handle_update(Update::Status { status: kaspa(1, 3, DEVNET, 0) });
    assert_eq!(uids(&core, 1), vec![2, 3, 1]);
}

#[test]
fn sorting_is_stable() {
    let list = vec![
        Node::new(kaspa(1, 1, DEVNET, 0)),
        Node::new(kaspa(1, 2, MAINNET, 0)),
        Node::new(kaspa(1, 3, DEVNET, 0)),
        Node::new(kaspa(1, 4, MAINNET, 0)),
        Node::new(kaspa(1, 5, TESTNET_10, 0)),
    ];
    let sorted: Vec<u64> = sort_nodes(list).iter().map(|node| node.uid()).collect();
    assert_eq!(sorted, vec![2, 4, 5, 1, 3]);
    assert!(sort_nodes(vec![]).is_empty());
}

#[test]
fn network_codes_are_in_the_order_of_the_networks() {
    let order = [MAINNET, TESTNET_10, TESTNET_11, DEVNET, SIMNET];
    for pair in order.windows(2) {
        assert!(pair[0].code() < pair[1].code());
        assert!(pair[0] < pair[1]);
    }
    assert_eq!(MAINNET.code(), 0);
    assert_eq!(TESTNET_10.code(), 0x2_0000_0000 + 0x1_0000_0000 + 10);
    assert_eq!(NetworkId::new(NetworkType::Testnet).code(), 0x2_0000_0000);
    assert_eq!(SIMNET.code(), 0x6_0000_0000);
    assert_eq!(NetworkId::with_suffix(NetworkType::Simnet, u32::MAX).code(), 0x7_ffff_ffff);
}
