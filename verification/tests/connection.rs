use kaspa_monitor::caps::Caps;
use kaspa_monitor::connection::{
    Args, Awaited, Connection, Ctl, Request, SyncSettings, Tick, TtlSettings, BIAS_SCALE,
};
use kaspa_monitor::error::Error;
use kaspa_monitor::network::{NetworkId, NetworkType};
use kaspa_monitor::node::NodeConfig;
use kaspa_monitor::services::ServiceKind;
use kaspa_monitor::transport::TransportKind;

fn args() -> Args {
    Args { verbose: false, trace: false, debug: false }
}

fn node(kind: TransportKind, uid: u64) -> NodeConfig {
    NodeConfig::from_parts(
        ServiceKind::Kaspa,
        NetworkId::new(NetworkType::Mainnet),
        kind,
        "node.example.com".to_string(),
        "wss://node.example.com".to_string(),
        uid,
        77,
    )
}

fn connection() -> Connection {
    Connection::try_new(&args(), node(TransportKind::WrpcBorsh, 1)).unwrap()
}

fn caps(clients_limit: u64, fd_limit: u64) -> Caps {
    Caps {
        version: "1.0.0".to_string(),
        system_id: 42,
        git_hash: None,
        total_memory: 0,
        cpu_physical_cores: 1,
        fd_limit,
        clients_limit,
    }
}

fn serving(clients: u64, peers: u64, clients_limit: u64, fd_limit: u64) -> Connection {
    let mut connection = connection();
    connection.caps = Some(caps(clients_limit, fd_limit));
    connection.is_online = true;
    connection.clients = clients;
    connection.peers = peers;
    connection
}

#[test]
fn new_connection_is_offline_and_primary() {
    let connection = connection();
    assert!(!connection.connected());
    assert!(!connection.online());
    assert!(!connection.is_synced());
    assert!(connection.is_delegate());
    assert!(connection.caps().is_none());
    assert_eq!(connection.sid(), 0);
    assert_eq!(connection.clients(), 0);
    assert_eq!(connection.peers(), 0);
    assert_eq!(connection.sockets(), 0);
    assert_eq!(connection.score(), 0);
    assert_eq!(connection.uid(), 1);
    assert_eq!(connection.address(), "wss://node.example.com");
    assert_eq!(connection.node().network_node_uid(), 77);
    assert_eq!(connection.network_id(), NetworkId::new(NetworkType::Mainnet));
    assert!(!connection.verbose());
    assert_eq!(connection.status(), "offline");
    assert_eq!(connection.last_connect_time, None);
    assert_eq!(BIAS_SCALE, 1_000_000);
}

#[test]
fn json_connection_can_be_made() {
    let made = Connection::try_new(
        &Args { verbose: true, trace: false, debug: false },
        node(TransportKind::WrpcJson, 2),
    );
    let connection = made.unwrap();
    assert!(connection.verbose());
    assert_eq!(connection.uid(), 2);
}

#[test]
fn grpc_connection_is_refused() {
    let made = Connection::try_new(&args(), node(TransportKind::Grpc, 3));
    assert_eq!(made.err(), Some(Error::UnsupportedTransport(TransportKind::Grpc)));
}

#[test]
fn available_with_room_on_both_limits() {
    assert!(serving(9, 5, 10, 100).is_available());
    assert!(serving(0, 0, 1, 1).is_available());
}

#[test]
fn unavailable_at_the_client_limit() {
    assert!(!serving(10, 0, 10, 100).is_available());
    assert!(!serving(11, 0, 10, 100).is_available());
    assert!(!serving(0, 0, 0, 100).is_available());
}

#[test]
fn unavailable_at_the_fd_limit() {
    assert!(serving(5, 94, 10, 100).is_available());
    assert!(!serving(5, 95, 10, 100).is_available());
    assert!(!serving(5, 96, 10, 100).is_available());
    assert!(!serving(0, 0, 10, 0).is_available());
}

#[test]
fn unavailable_when_the_load_exceeds_every_limit() {
    let mut connection = serving(5, 0, u64::MAX, u64::MAX);
    connection.clients = u64::MAX - 1;
    connection.peers = u64::MAX;
    assert!(!connection.is_available());
}

#[test]
fn unavailable_without_caps_offline_or_as_delegate() {
    let mut unknown = serving(0, 0, 10, 100);
    unknown.caps = None;
    assert!(!unknown.is_available());
    let mut offline = serving(0, 0, 10, 100);
    offline.is_online = false;
    assert!(!offline.is_available());
    let mut deferring = serving(0, 0, 10, 100);
    deferring.bind_delegate(Some(9));
    assert!(!deferring.is_available());
    deferring.bind_delegate(None);
    assert!(deferring.is_available());
}

#[test]
fn load_is_recorded() {
    let mut connection = connection();
    connection.update_load(3, 4);
    assert_eq!(connection.clients(), 3);
    assert_eq!(connection.peers(), 4);
    assert_eq!(connection.sockets(), 7);
    assert_eq!(connection.score(), 3);
}

#[test]
fn status_words() {
    let mut connection = connection();
    assert_eq!(connection.status(), "offline");
    connection.on_ctl(Ctl::Connect, 0);
    assert_eq!(connection.status(), "syncing");
    connection.is_synced = true;
    assert_eq!(connection.status(), "online");
    connection.bind_delegate(Some(5));
    assert_eq!(connection.status(), "delegator");
    connection.on_ctl(Ctl::Disconnect, 1);
    assert_eq!(connection.status(), "offline");
}

#[test]
fn connect_records_the_time_and_asks_for_a_check() {
    let mut connection = connection();
    assert!(connection.on_ctl(Ctl::Connect, 1234));
    assert!(connection.connected());
    assert_eq!(connection.last_connect_time, Some(1234));
    assert!(!connection.online());
}

#[test]
fn disconnect_clears_online_and_the_time() {
    let mut connection = connection();
    connection.on_ctl(Ctl::Connect, 1234);
    connection.set_online(true);
    assert!(!connection.on_ctl(Ctl::Disconnect, 2000));
    assert!(!connection.connected());
    assert!(!connection.online());
    assert_eq!(connection.last_connect_time, None);
}

fn connected_at(at: u64) -> Connection {
    let mut connection = connection();
    connection.on_ctl(Ctl::Connect, at);
    connection.caps = Some(caps(10, 100));
    connection
}

#[test]
fn tick_within_the_ttl_checks() {
    let ttl = TtlSettings { enable: true, ttl: 1000 };
    let mut connection = connected_at(5000);
    assert_eq!(connection.on_tick(5000, &ttl), Tick::Check);
    assert_eq!(connection.on_tick(5999, &ttl), Tick::Check);
    assert_eq!(connection.on_tick(6000, &ttl), Tick::Check);
    assert!(connection.caps.is_some());
    assert_eq!(connection.last_connect_time, Some(5000));
}

#[test]
fn tick_past_the_ttl_resets() {
    let ttl = TtlSettings { enable: true, ttl: 1000 };
    let mut connection = connected_at(5000);
    assert_eq!(connection.on_tick(6001, &ttl), Tick::Reset { reconnect: true });
    assert!(connection.caps.is_none());
    assert_eq!(connection.last_connect_time, None);
    assert!(connection.connected());
    // The time of the connect is gone, so the next tick checks.
    assert_eq!(connection.on_tick(9000, &ttl), Tick::Check);
}

#[test]
fn tick_past_the_ttl_without_a_session_does_not_reconnect() {
    let ttl = TtlSettings { enable: true, ttl: 1000 };
    let mut connection = connected_at(5000);
    connection.is_connected = false;
    assert_eq!(connection.on_tick(7000, &ttl), Tick::Reset { reconnect: false });
    assert!(connection.caps.is_none());
}

#[test]
fn tick_with_ttl_off_never_resets() {
    let ttl = TtlSettings { enable: false, ttl: 1000 };
    let mut connection = connected_at(5000);
    assert_eq!(connection.on_tick(u64::MAX, &ttl), Tick::Check);
    assert!(connection.caps.is_some());
}

#[test]
fn tick_with_zero_ttl_resets_after_the_first_moment() {
    let ttl = TtlSettings { enable: true, ttl: 0 };
    let mut connection = connected_at(5000);
    assert_eq!(connection.on_tick(5000, &ttl), Tick::Check);
    assert_eq!(connection.on_tick(5001, &ttl), Tick::Reset { reconnect: true });
}

#[test]
fn tick_before_the_connect_time_checks() {
    let ttl = TtlSettings { enable: true, ttl: 10 };
    let mut connection = connected_at(5000);
    assert_eq!(connection.on_tick(100, &ttl), Tick::Check);
}

#[test]
fn tick_without_a_session_idles() {
    let ttl = TtlSettings { enable: true, ttl: 1000 };
    let mut connection = connection();
    assert_eq!(connection.on_tick(10_000, &ttl), Tick::Idle);
}

#[test]
fn set_online_reports_transitions() {
    let mut connection = connection();
    assert!(connection.set_online(true));
    assert!(connection.online());
    assert!(!connection.set_online(true));
    assert!(connection.set_online(false));
    assert!(!connection.online());
    assert!(!connection.set_online(false));
}

#[test]
fn first_request_follows_the_role() {
    let mut connection = connection();
    assert_eq!(connection.first_request(), Request::GetCaps);
    connection.caps = Some(caps(10, 100));
    assert_eq!(connection.first_request(), Request::GetSync);
    connection.bind_delegate(Some(4));
    assert_eq!(connection.first_request(), Request::Ping);
    connection.caps = None;
    assert_eq!(connection.first_request(), Request::Ping);
}

#[test]
fn beginning_a_check_notes_the_awaited_answer() {
    let mut connection = connection();
    assert_eq!(connection.awaited, Awaited::Nothing);
    assert_eq!(connection.begin_check(), Request::GetCaps);
    assert_eq!(connection.awaited, Awaited::Caps);
    connection.caps = Some(caps(10, 100));
    assert_eq!(connection.begin_check(), Request::GetSync);
    assert_eq!(connection.awaited, Awaited::Sync);
    connection.bind_delegate(Some(4));
    assert_eq!(connection.begin_check(), Request::Ping);
    assert_eq!(connection.awaited, Awaited::Ping);
}

#[test]
fn interval_follows_the_role() {
    let settings = SyncSettings { poll: 5000, ping: 1000 };
    let mut connection = connection();
    assert_eq!(connection.interval(&settings), 5000);
    connection.bind_delegate(Some(4));
    assert_eq!(connection.interval(&settings), 1000);
}

#[test]
fn connection_renders_ids_sockets_and_address() {
    let mut connection = connection();
    connection.sid = 0xbeef;
    assert_eq!(
        connection.to_string(),
        "[000000000000beef:0000000000000001] [   0] wss://node.example.com"
    );
    connection.update_load(120, 3);
    assert_eq!(
        connection.to_string(),
        "[000000000000beef:0000000000000001] [ 123] wss://node.example.com"
    );
    connection.update_load(12_000, 345);
    assert_eq!(
        connection.to_string(),
        "[000000000000beef:0000000000000001] [12345] wss://node.example.com"
    );
}

#[test]
fn clone_keeps_every_field() {
    let mut connection = serving(3, 4, 10, 100);
    connection.bind_delegate(Some(8));
    connection.on_ctl(Ctl::Connect, 55);
    connection.sid = 9;
    let copy = connection.clone();
    assert_eq!(copy.delegate, Some(8));
    assert_eq!(copy.last_connect_time, Some(55));
    assert_eq!(copy.sid, 9);
    assert_eq!(copy.clients, 3);
    assert_eq!(copy.peers, 4);
    assert!(copy.is_connected);
    assert!(copy.is_online);
    assert_eq!(copy.caps.unwrap().fd_limit, 100);
    assert_eq!(copy.node.uid, 1);
}
