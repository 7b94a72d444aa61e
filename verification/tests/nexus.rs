use kaspa_monitor::caps::Caps;
use kaspa_monitor::connection::{Args, Ctl, Request};
use kaspa_monitor::event::Event;
use kaspa_monitor::message::{GetStatusRequest, Notification, PingRequest, PingResponse, Update};
use kaspa_monitor::monitor::{Progress, Response};
use kaspa_monitor::network::{NetworkId, NetworkType};
use kaspa_monitor::nexus::{Action, Fetched, Nexus, Updated};
use kaspa_monitor::node::NodeConfig;
use kaspa_monitor::services::ServiceKind;
use kaspa_monitor::status::{SparkleNodeStatus, Status};
use kaspa_monitor::transport::{Transport, TransportKind};

fn args() -> Args {
    Args { verbose: true, trace: false, debug: false }
}

fn entry(service: ServiceKind, kind: TransportKind, uid: u64, group: u64) -> NodeConfig {
    NodeConfig::from_parts(
        service,
        NetworkId::new(NetworkType::Mainnet),
        kind,
        format!("node{group}.example.com"),
        format!("wss://node{group}.example.com/{uid}"),
        uid,
        group,
    )
}

fn caps(system_id: u64) -> Caps {
    Caps {
        version: "1.0.0".to_string(),
        system_id,
        git_hash: None,
        total_memory: 0,
        cpu_physical_cores: 4,
        fd_limit: 1000,
        clients_limit: 4096,
    }
}

fn sorted(mut uids: Vec<u64>) -> Vec<u64> {
    uids.sort();
    uids
}

fn hub() -> Nexus {
    Nexus::try_new(&args()).unwrap()
}

#[test]
fn new_hub_is_empty() {
    let hub = hub();
    assert!(hub.contexts().is_empty());
    assert!(hub.connections().is_empty());
    assert!(hub.args().verbose);
    assert_eq!(hub.monitor(ServiceKind::Kaspa).service(), ServiceKind::Kaspa);
    assert_eq!(hub.monitor(ServiceKind::Sparkle).service(), ServiceKind::Sparkle);
    assert!(hub.monitor(ServiceKind::Kaspa).verbose());
}

#[test]
fn each_pool_takes_the_entries_of_its_service() {
    let mut hub = hub();
    let done = hub.update_nodes(vec![
        entry(ServiceKind::Kaspa, TransportKind::WrpcBorsh, 1, 10),
        entry(ServiceKind::Sparkle, TransportKind::WrpcBorsh, 2, 20),
        entry(ServiceKind::Kaspa, TransportKind::WrpcJson, 3, 10),
        entry(ServiceKind::Sparkle, TransportKind::WrpcJson, 4, 40),
    ]);
    assert_eq!(done.kaspa.created, vec![1, 3]);
    assert_eq!(done.sparkle.created, vec![2, 4]);
    assert!(done.dangling.is_empty());
    assert_eq!(sorted(hub.monitor(ServiceKind::Kaspa).connections()), vec![1, 3]);
    assert_eq!(sorted(hub.monitor(ServiceKind::Sparkle).connections()), vec![2, 4]);
    let all: Vec<u64> = hub.connections().iter().map(|connection| connection.uid()).collect();
    assert_eq!(sorted(all[..2].to_vec()), vec![1, 3]);
    assert_eq!(sorted(all[2..].to_vec()), vec![2, 4]);
}

#[test]
fn update_applies_a_changed_list() {
    let mut hub = hub();
    let list = vec![entry(ServiceKind::Kaspa, TransportKind::WrpcBorsh, 1, 10)];
    match hub.update(Fetched::Changed(list), false) {
        Updated::Applied(done) => assert_eq!(done.kaspa.created, vec![1]),
        _ => panic!("the list is to be applied"),
    }
    assert_eq!(hub.monitor(ServiceKind::Kaspa).connections(), vec![1]);
}

#[test]
fn update_leaves_the_pools_when_nothing_changed_or_the_source_failed() {
    let mut hub = hub();
    hub.update_nodes(vec![entry(ServiceKind::Kaspa, TransportKind::WrpcBorsh, 1, 10)]);
    assert!(matches!(hub.update(Fetched::Unchanged, true), Updated::Unchanged));
    assert!(matches!(hub.update(Fetched::Unchanged, false), Updated::Unchanged));
    assert!(matches!(hub.update(Fetched::Failed, true), Updated::LoadLocal));
    assert!(matches!(hub.update(Fetched::Failed, false), Updated::LoadLocal));
    assert_eq!(hub.monitor(ServiceKind::Kaspa).connections(), vec![1]);
}

#[test]
fn start_and_update_ask_for_the_configuration() {
    let hub = hub();
    assert!(matches!(hub.handle_event(Event::Start), Action::Reload { fallback_to_local: true }));
    assert!(matches!(hub.handle_event(Event::Update), Action::Reload { fallback_to_local: true }));
}

#[test]
fn events_go_to_every_subscriber_once() {
    let mut hub = hub();
    hub.register_context(7);
    hub.register_context(3);
    hub.register_context(7);
    hub.register_context(11);
    let status = Status::from(SparkleNodeStatus { sid: 5, uid: 6 });
    match hub.handle_event(Event::Status { status }) {
        Action::Deliver { notification, recipients } => {
            assert_eq!(sorted(recipients), vec![3, 7, 11]);
            match notification {
                Notification::Update { update: Update::Status { status } } => {
                    assert_eq!(status.uid(), 6);
                    assert_eq!(status.sid(), 5);
                }
                _ => panic!("a status update is due"),
            }
        }
        _ => panic!("a delivery is due"),
    }
    match hub.handle_event(Event::Caps { uid: 9, caps: caps(42) }) {
        Action::Deliver { notification, recipients } => {
            assert_eq!(sorted(recipients), vec![3, 7, 11]);
            match notification {
                Notification::Update { update: Update::Caps { uid, caps } } => {
                    assert_eq!(uid, 9);
                    assert_eq!(caps.system_id, 42);
                }
                _ => panic!("a caps update is due"),
            }
        }
        _ => panic!("a delivery is due"),
    }
}

#[test]
fn events_without_subscribers_go_to_nobody() {
    let hub = hub();
    match hub.handle_event(Event::Caps { uid: 9, caps: caps(42) }) {
        Action::Deliver { recipients, .. } => assert!(recipients.is_empty()),
        _ => panic!("a delivery is due"),
    }
}

#[test]
fn unregistered_subscribers_get_nothing() {
    let mut hub = hub();
    hub.register_context(1);
    hub.register_context(2);
    hub.unregister_context(1);
    hub.unregister_context(5);
    assert_eq!(hub.contexts(), vec![2]);
    match hub.handle_event(Event::Caps { uid: 9, caps: caps(42) }) {
        Action::Deliver { recipients, .. } => assert_eq!(recipients, vec![2]),
        _ => panic!("a delivery is due"),
    }
}

#[test]
fn late_subscriber_gets_the_known_caps() {
    let mut hub = hub();
    hub.update_nodes(vec![
        entry(ServiceKind::Kaspa, TransportKind::WrpcBorsh, 1, 10),
        entry(ServiceKind::Kaspa, TransportKind::WrpcBorsh, 2, 20),
        entry(ServiceKind::Kaspa, TransportKind::WrpcBorsh, 3, 30),
        entry(ServiceKind::Sparkle, TransportKind::WrpcBorsh, 4, 40),
        entry(ServiceKind::Sparkle, TransportKind::WrpcBorsh, 5, 50),
    ]);
    assert!(hub.register_context(100).is_empty());
    hub.monitor_mut(ServiceKind::Kaspa).resolve_caps(1, caps(41));
    hub.monitor_mut(ServiceKind::Kaspa).resolve_caps(3, caps(43));
    hub.monitor_mut(ServiceKind::Sparkle).resolve_caps(5, caps(45));
    let replay = hub.register_context(200);
    assert_eq!(replay.len(), 3);
    let mut seen: Vec<(u64, u64)> = replay
        .into_iter()
        .map(|notification| match notification {
            Notification::Update { update: Update::Caps { uid, caps } } => (uid, caps.system_id),
            _ => panic!("only capabilities are replayed"),
        })
        .collect();
    seen.sort();
    assert_eq!(seen, vec![(1, 41), (3, 43), (5, 45)]);
    assert_eq!(sorted(hub.contexts()), vec![100, 200]);
    // The replay leaves the connections as they are.
    assert_eq!(sorted(hub.monitor(ServiceKind::Kaspa).connections()), vec![1, 2, 3]);
}

#[test]
fn replay_drops_caps_that_expired_or_whose_connection_is_gone() {
    let mut hub = hub();
    hub.update_nodes(vec![
        entry(ServiceKind::Kaspa, TransportKind::WrpcBorsh, 1, 10),
        entry(ServiceKind::Kaspa, TransportKind::WrpcBorsh, 2, 20),
    ]);
    hub.monitor_mut(ServiceKind::Kaspa).resolve_caps(1, caps(41));
    hub.monitor_mut(ServiceKind::Kaspa).resolve_caps(2, caps(42));
    hub.update_nodes(vec![entry(ServiceKind::Kaspa, TransportKind::WrpcBorsh, 2, 20)]);
    assert_eq!(hub.register_context(1).len(), 1);
    hub.monitor_mut(ServiceKind::Kaspa).ctl(2, Ctl::Connect, 0);
    let ttl = kaspa_monitor::connection::TtlSettings { enable: true, ttl: 10 };
    hub.monitor_mut(ServiceKind::Kaspa).tick(2, 11, &ttl);
    assert!(hub.register_context(2).is_empty());
}

#[test]
fn borsh_and_json_endpoints_of_one_node_are_deduplicated() {
    let network = NetworkId::new(NetworkType::Mainnet);
    let borsh = NodeConfig::new(
        &ServiceKind::Kaspa,
        network,
        &Transport::new(TransportKind::WrpcBorsh, true),
        "node.example.com",
        "wss://node.example.com/kaspa/mainnet/wrpc/borsh",
    );
    let json = NodeConfig::new(
        &ServiceKind::Kaspa,
        network,
        &Transport::new(TransportKind::WrpcJson, true),
        "node.example.com",
        "wss://node.example.com/kaspa/mainnet/wrpc/json",
    );
    assert_eq!(borsh.network_node_uid(), json.network_node_uid());
    let (borsh_uid, json_uid) = (borsh.uid(), json.uid());

    let mut hub = hub();
    hub.handle_event(Event::Start);
    let done = hub.update_nodes(vec![json, borsh]);
    assert_eq!(done.kaspa.created, vec![json_uid, borsh_uid]);

    let pool = hub.monitor_mut(ServiceKind::Kaspa);
    assert!(pool.ctl(borsh_uid, Ctl::Connect, 10));
    assert!(pool.ctl(json_uid, Ctl::Connect, 11));

    // The Borsh connection resolves the capabilities first and polls in full.
    assert_eq!(pool.begin_update(borsh_uid), Some(Request::GetCaps));
    let learnt = match pool.advance(borsh_uid, Response::Caps(Some(caps(42)))) {
        Progress::Call { request: Request::GetSync, event: Some(event) } => event,
        _ => panic!("the claimant hands on its capabilities and goes on"),
    };
    assert!(matches!(learnt, Event::Caps { uid, .. } if uid == borsh_uid));
    assert!(matches!(
        pool.advance(borsh_uid, Response::Sync(Some(true))),
        Progress::Call { request: Request::GetStatus, event: None }
    ));
    let status = Status::from(SparkleNodeStatus { sid: 0, uid: 0 });
    let event = match pool.advance(borsh_uid, Response::Status(Some(status))) {
        Progress::Done(outcome) => outcome.event.unwrap(),
        Progress::Call { .. } => panic!("the check is over"),
    };
    match &event {
        Event::Status { status } => {
            assert_eq!(status.uid(), borsh_uid);
            assert_eq!(status.sid(), 42);
        }
        _ => panic!("a status event is due"),
    }

    // The Json connection defers to it and only pings.
    assert_eq!(pool.get(json_uid).unwrap().delegate, Some(borsh_uid));
    assert_eq!(pool.primary_of(json_uid), Some(borsh_uid));
    assert_eq!(pool.begin_update(json_uid), Some(Request::Ping));
    assert!(matches!(pool.advance(json_uid, Response::Ping(true)), Progress::Done(_)));
    assert_eq!(pool.begin_update(json_uid), Some(Request::Ping));
    assert!(pool.get(json_uid).unwrap().caps().is_none());
    assert_eq!(pool.get(json_uid).unwrap().status(), "delegator");
    assert_eq!(pool.get(borsh_uid).unwrap().status(), "online");
    assert!(pool.get(borsh_uid).unwrap().is_available());
    assert!(!pool.get(json_uid).unwrap().is_available());

    // A subscriber that joins now learns of the one primary.
    let replay = hub.register_context(1);
    assert_eq!(replay.len(), 1);
    match hub.handle_event(event) {
        Action::Deliver { recipients, .. } => assert_eq!(recipients, vec![1]),
        _ => panic!("a delivery is due"),
    }
    // And the capabilities the claimant handed on go out to it as well.
    match hub.handle_event(learnt) {
        Action::Deliver { notification, recipients } => {
            assert_eq!(recipients, vec![1]);
            assert!(matches!(
                notification,
                Notification::Update { update: Update::Caps { uid, .. } } if uid == borsh_uid
            ));
        }
        _ => panic!("a delivery is due"),
    }
}

#[test]
fn stopping_the_hub_stops_both_pools() {
    let mut hub = hub();
    hub.update_nodes(vec![
        entry(ServiceKind::Kaspa, TransportKind::WrpcBorsh, 1, 10),
        entry(ServiceKind::Sparkle, TransportKind::WrpcBorsh, 2, 20),
    ]);
    hub.register_context(5);
    let (kaspa, sparkle) = hub.stop();
    assert_eq!(kaspa, vec![1]);
    assert_eq!(sparkle, vec![2]);
    assert!(hub.connections().is_empty());
    assert_eq!(hub.contexts(), vec![5]);
}

#[test]
fn informational_calls() {
    let hub = hub();
    assert_eq!(hub.ping_call(PingRequest {}), Ok(PingResponse {}));
    let status = hub.get_status_call(GetStatusRequest {}, "1.2.3").unwrap();
    assert_eq!(status.kaspa_monitor_version, "1.2.3");
}
