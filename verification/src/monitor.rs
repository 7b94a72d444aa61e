use crate::caps::Caps;
use crate::connection::{awaited_for, Args, Awaited, Connection, Ctl, Request, Tick, TtlSettings};
use crate::delegate::Delegate;
use crate::delegation::{can_defer_to, chain, chain_end};
use crate::error::Error;
use crate::event::Event;
use crate::node::NodeConfig;
use crate::reconcile::{
    created, group_primary, leads, lemma_group_primary_is, lemma_group_primary_none,
    of_other_service, rebound, rebound_one, reconciled, refused, released, released_one,
    restructured, well_filed,
};
use crate::services::ServiceKind;
use crate::status::Status;
use crate::table::{
    connection_uids, connections_in, get_connection, get_primary, insert_connection,
    insert_primary, new_connections, new_registry, primaries_in,
};
use crate::transport::TransportKind;
use ahash::AHashMap;
use vstd::prelude::*;

verus! {

/// What came back from a call made during a health check; `None` where the
/// call failed.
#[derive(Debug)]
pub enum Response {
    /// The ping is over, and this is whether the node answered.
    Ping(bool),
    /// The capabilities the node reported.
    Caps(Option<Caps>),
    /// Whether the node reported itself synced.
    Sync(Option<bool>),
    /// The status the node reported.
    Status(Option<Status>),
}

/// How a health check ended.
#[derive(Debug)]
pub struct Outcome {
    /// Whether the node counts as online, or why it does not.
    pub result: Result<(), Error>,
    /// The event to hand to the hub, if the check produced one.
    pub event: Option<Event>,
    /// Whether the node went online or offline by this check.
    pub changed: bool,
}

/// Where a health check stands after a response.
#[derive(Debug)]
pub enum Progress {
    /// The check goes on with the call `request`; `event` is what the
    /// response gave to hand to the hub, if it gave anything.
    Call { request: Request, event: Option<Event> },
    /// The check is over.
    Done(Outcome),
}

/// What became of capabilities that were handed to a pool.
#[derive(Debug, Clone, Copy, PartialEq, Eq, Structural)]
pub enum Resolution {
    /// The connection has claimed the physical node and polls it itself.
    Claimed,
    /// The connection defers to the primary that had claimed the node.
    Deferred,
    /// Nothing was done: the endpoint has no live connection, or its
    /// connection defers already, or knows the capabilities already.
    Ignored,
}

/// What a pool did to adapt to a desired list.
#[derive(Debug)]
pub struct Changes {
    /// The endpoints that connections were made for: their polling loops are
    /// to be started.
    pub created: Vec<u64>,
    /// The endpoints whose connections were removed: their polling loops are
    /// to be stopped.
    pub removed: Vec<u64>,
    /// The endpoints that no connection could be made for, with the reason.
    pub failed: Vec<(u64, Error)>,
}

/// Whether `uid` is among the first `upto` of `uids`.
spec fn seen(uids: Seq<u64>, upto: int, uid: u64) -> bool {
    exists|j: int| 0 <= j < upto && uids[j] == uid
}

proof fn lemma_seen_step(uids: Seq<u64>, upto: int, uid: u64)
    requires
        0 <= upto < uids.len(),
    ensures
        seen(uids, upto + 1, uid) <==> seen(uids, upto, uid) || uid == uids[upto],
{
    if seen(uids, upto, uid) {
        let j = choose|j: int| 0 <= j < upto && uids[j] == uid;
        assert(0 <= j < upto + 1 && uids[j] == uid);
    }
    if uid == uids[upto] {
        assert(0 <= upto < upto + 1 && uids[upto] == uid);
    }
}

proof fn lemma_seen_all(uids: Seq<u64>, uid: u64)
    ensures
        seen(uids, uids.len() as int, uid) <==> uids.to_set().contains(uid),
{
    if uids.to_set().contains(uid) {
        assert(uids.contains(uid));
        let j = choose|j: int| 0 <= j < uids.len() && uids[j] == uid;
        assert(0 <= j < uids.len() && uids[j] == uid);
    }
    if seen(uids, uids.len() as int, uid) {
        let j = choose|j: int| 0 <= j < uids.len() && uids[j] == uid;
        assert(uids.contains(uid));
    }
}

/// Finds the preferred primary of the physical node `group` among the
/// connections of `table`, whose endpoints `uids` lists.
fn preferred_primary(table: &AHashMap<u64, Connection>, uids: &Vec<u64>, group: u64) -> (primary:
    Option<u64>)
    requires
        uids@.to_set() == connections_in(*table).dom(),
    ensures
        primary == group_primary(connections_in(*table), group),
{
    let ghost among = connections_in(*table);
    let mut best: Option<u64> = None;
    let mut at: usize = 0;
    while at < uids.len()
        invariant
            at <= uids@.len(),
            among == connections_in(*table),
            uids@.to_set() == among.dom(),
            best.is_some() ==> leads(among, group, best.unwrap()),
            best.is_some() ==> forall|j: int|
                0 <= j < at && leads(among, group, #[trigger] uids@[j]) ==> best.unwrap()
                    <= uids@[j],
            best.is_none() ==> forall|j: int| 0 <= j < at ==> !leads(among, group, #[trigger] uids@[j]),
        decreases uids@.len() - at,
    {
        let uid = uids[at];
        assert(uids@.to_set().contains(uids@[at as int]));
        match get_connection(table, uid) {
            Some(connection) => {
                if connection.node.transport_kind() == TransportKind::WrpcBorsh
                    && connection.node.network_node_uid() == group {
                    match best {
                        Some(least) => {
                            if uid < least {
                                best = Some(uid);
                            }
                        },
                        None => {
                            best = Some(uid);
                        },
                    }
                }
            },
            None => {},
        }
        at += 1;
    }
    proof {
        match best {
            Some(least) => {
                assert forall|other: u64| leads(among, group, other) implies least <= other by {
                    assert(uids@.to_set().contains(other));
                    let j = choose|j: int| 0 <= j < uids@.len() && uids@[j] == other;
                    assert(leads(among, group, uids@[j]));
                }
                lemma_group_primary_is(among, group, least);
            },
            None => {
                assert forall|other: u64| !leads(among, group, other) by {
                    if leads(among, group, other) {
                        assert(uids@.to_set().contains(other));
                        let j = choose|j: int| 0 <= j < uids@.len() && uids@[j] == other;
                        assert(!leads(among, group, uids@[j]));
                    }
                }
                lemma_group_primary_none(among, group);
            },
        }
    }
    best
}

/// Whether `list` holds every connection of `live` once, each as it is
/// filed, and nothing else.
pub open spec fn lists_all(list: Seq<Connection>, live: Map<u64, Connection>) -> bool {
    &&& list.len() == live.dom().len()
    &&& forall|i: int|
        0 <= i < list.len() ==> live.dom().contains(#[trigger] list[i].node.uid)
            && live[list[i].node.uid] == list[i]
    &&& forall|i: int, j: int| 0 <= i < j < list.len() ==> list[i].node.uid != list[j].node.uid
    &&& forall|uid: u64|
        live.dom().contains(uid) ==> exists|i: int|
            0 <= i < list.len() && #[trigger] list[i].node.uid == uid
}

/// The endpoints of the connections whose node's capabilities are known.
pub open spec fn bearing(live: Map<u64, Connection>) -> Set<u64> {
    Set::new(|uid: u64| live.dom().contains(uid) && live[uid].caps.is_some())
}

/// Whether `known` holds the capabilities of every connection of `live`
/// that knows its node's, once for each, under the connection's endpoint,
/// and nothing else.
pub open spec fn lists_caps(known: Seq<(u64, Caps)>, live: Map<u64, Connection>) -> bool {
    &&& known.len() == bearing(live).len()
    &&& forall|i: int|
        0 <= i < known.len() ==> bearing(live).contains(#[trigger] known[i].0) && live[known[i].0].caps
            == Some(known[i].1)
    &&& forall|i: int, j: int| 0 <= i < j < known.len() ==> known[i].0 != known[j].0
}

/// The connections of all endpoints of one service, and the registry of the
/// physical nodes that primaries among them have claimed.
pub struct Monitor {
    args: Args,
    connections: AHashMap<u64, Connection>,
    delegates: AHashMap<(u64, u64), u64>,
    service: ServiceKind,
}

impl Monitor {
    /// The live connections, by the identifier of their endpoint.
    pub closed spec fn live(&self) -> Map<u64, Connection> {
        connections_in(self.connections)
    }

    /// The registry: for a physical node, the endpoint of the connection
    /// that claimed it.
    pub closed spec fn registry(&self) -> Map<(u64, u64), u64> {
        primaries_in(self.delegates)
    }

    /// The service whose endpoints the pool takes.
    pub closed spec fn kind(&self) -> ServiceKind {
        self.service
    }

    /// The options the pool was made with.
    pub closed spec fn options(&self) -> Args {
        self.args
    }

    /// There are finitely many connections, and every one is well formed
    /// and filed under the identifier of its own endpoint.
    pub open spec fn wf(&self) -> bool {
        well_filed(self.live())
    }

    /// Makes the pool for one service, with no connections.
    pub fn new(args: &Args, service: ServiceKind) -> (pool: Monitor)
        ensures
            pool.wf(),
            pool.live() == Map::<u64, Connection>::empty(),
            pool.registry() == Map::<(u64, u64), u64>::empty(),
            pool.kind() == service,
            pool.options() == *args,
    {
        let pool = Monitor {
            args: *args,
            connections: new_connections(),
            delegates: new_registry(),
            service,
        };
        assert(pool.live() =~= Map::<u64, Connection>::empty());
        assert(pool.registry() =~= Map::<(u64, u64), u64>::empty());
        pool
    }

    pub fn verbose(&self) -> (verbose: bool)
        ensures
            verbose == self.options().verbose,
    {
        self.args.verbose
    }

    pub fn service(&self) -> (service: ServiceKind)
        ensures
            service == self.kind(),
    {
        self.service
    }

    /// The endpoint of the connection that has claimed the physical node
    /// `key`, if any has.
    pub fn delegates(&self, key: &Delegate) -> (holder: Option<u64>)
        ensures
            holder == if self.registry().dom().contains(key.key()) {
                Some(self.registry()[key.key()])
            } else {
                None
            },
    {
        get_primary(&self.delegates, key.registry_key())
    }

    /// The endpoint identifiers of the live connections, each once, in no
    /// particular order.
    pub fn connections(&self) -> (uids: Vec<u64>)
        ensures
            uids@.no_duplicates(),
            uids@.to_set() == self.live().dom(),
    {
        connection_uids(&self.connections)
    }

    /// The connection of the endpoint `uid`, if it is live.
    pub fn get(&self, uid: u64) -> (found: Option<Connection>)
        ensures
            found == if self.live().dom().contains(uid) {
                Some(self.live()[uid])
            } else {
                None
            },
    {
        match get_connection(&self.connections, uid) {
            Some(connection) => Some(connection.clone()),
            None => None,
        }
    }

    /// The live connections, each once, in no particular order.
    pub fn to_vec(&self) -> (list: Vec<Connection>)
        requires
            self.wf(),
        ensures
            lists_all(list@, self.live()),
    {
        let uids = connection_uids(&self.connections);
        proof {
            uids@.unique_seq_to_set();
        }
        let mut list: Vec<Connection> = Vec::new();
        let mut at: usize = 0;
        while at < uids.len()
            invariant
                self.wf(),
                at <= uids@.len(),
                uids@.no_duplicates(),
                uids@.to_set() == self.live().dom(),
                list@.len() == at,
                forall|i: int|
                    0 <= i < at ==> #[trigger] list@[i] == self.live()[uids@[i]] && list@[i].node.uid
                        == uids@[i],
            decreases uids@.len() - at,
        {
            let uid = uids[at];
            assert(uids@.to_set().contains(uids@[at as int]));
            match get_connection(&self.connections, uid) {
                Some(connection) => {
                    list.push(connection.clone());
                },
                None => {
                    assert(false);
                },
            }
            at += 1;
        }
        proof {
            assert forall|i: int| 0 <= i < list@.len() implies self.live().dom().contains(
                #[trigger] list@[i].node.uid,
            ) && self.live()[list@[i].node.uid] == list@[i] by {
                assert(uids@.to_set().contains(uids@[i]));
            }
            assert forall|uid: u64| self.live().dom().contains(uid) implies exists|i: int|
                0 <= i < list@.len() && #[trigger] list@[i].node.uid == uid by {
                assert(uids@.to_set().contains(uid));
                let i = choose|i: int| 0 <= i < uids@.len() && uids@[i] == uid;
                assert(list@[i].node.uid == uid);
            }
        }
        list
    }

    /// The capabilities of every node whose capabilities are known, each
    /// with the endpoint of the connection that knows them, in no particular
    /// order.
    pub fn known_caps(&self) -> (known: Vec<(u64, Caps)>)
        requires
            self.wf(),
        ensures
            lists_caps(known@, self.live()),
    {
        let uids = connection_uids(&self.connections);
        let ghost live = self.live();
        let mut known: Vec<(u64, Caps)> = Vec::new();
        let ghost mut sent: Seq<u64> = Seq::empty();
        let mut at: usize = 0;
        while at < uids.len()
            invariant
                at <= uids@.len(),
                live == self.live(),
                uids@.no_duplicates(),
                uids@.to_set() == live.dom(),
                known@.len() == sent.len(),
                sent.no_duplicates(),
                forall|i: int| 0 <= i < sent.len() ==> #[trigger] known@[i].0 == sent[i],
                forall|i: int|
                    0 <= i < known@.len() ==> bearing(live).contains(#[trigger] known@[i].0)
                        && live[known@[i].0].caps == Some(known@[i].1),
                forall|uid: u64|
                    sent.contains(uid) <==> seen(uids@, at as int, uid) && bearing(live).contains(
                        uid,
                    ),
            decreases uids@.len() - at,
        {
            let uid = uids[at];
            let ghost before = sent;
            proof {
                assert(uids@.to_set().contains(uids@[at as int]));
                assert(!seen(uids@, at as int, uid)) by {
                    if seen(uids@, at as int, uid) {
                        let j = choose|j: int| 0 <= j < at && uids@[j] == uid;
                        assert(uids@[j] == uids@[at as int]);
                    }
                }
                assert(!before.contains(uid));
            }
            match get_connection(&self.connections, uid) {
                Some(connection) => {
                    match &connection.caps {
                        Some(caps) => {
                            known.push((uid, caps.clone()));
                            proof {
                                sent = sent.push(uid);
                                assert forall|other: u64| sent.contains(other) <==> before.contains(
                                    other,
                                ) || other == uid by {
                                    if before.contains(other) {
                                        let j = choose|j: int|
                                            0 <= j < before.len() && before[j] == other;
                                        assert(sent[j] == other);
                                    }
                                    assert(sent[before.len() as int] == uid);
                                }
                            }
                        },
                        None => {},
                    }
                },
                None => {},
            }
            at += 1;
            proof {
                assert forall|other: u64| sent.contains(other) <==> seen(uids@, at as int, other)
                    && bearing(live).contains(other) by {
                    lemma_seen_step(uids@, at as int - 1, other);
                    assert(before.contains(other) <==> seen(uids@, at as int - 1, other)
                        && bearing(live).contains(other));
                }
            }
        }
        proof {
            assert forall|uid: u64| sent.contains(uid) <==> bearing(live).contains(uid) by {
                lemma_seen_all(uids@, uid);
            }
            assert(sent.to_set() =~= bearing(live));
            sent.unique_seq_to_set();
            assert forall|i: int, j: int| 0 <= i < j < known@.len() implies known@[i].0
                != known@[j].0 by {
                assert(sent[i] != sent[j]);
            }
        }
        known
    }

    /// The primary that the connection of the endpoint `uid` resolves to,
    /// following delegations from one live connection to the next. A chain
    /// among `n` live connections is followed for `n` links at most, so the
    /// search ends even where delegations run in a circle.
    pub fn primary_of(&self, uid: u64) -> (primary: Option<u64>)
        ensures
            primary == chain_end(self.live(), uid, self.live().dom().len()),
    {
        let uids = connection_uids(&self.connections);
        proof {
            uids@.unique_seq_to_set();
        }
        let mut hops: usize = uids.len();
        let mut at: u64 = uid;
        loop
            invariant
                chain_end(self.live(), uid, self.live().dom().len()) == chain_end(
                    self.live(),
                    at,
                    hops as nat,
                ),
            decreases hops,
        {
            match get_connection(&self.connections, at) {
                None => {
                    return None;
                },
                Some(connection) => {
                    match connection.delegate {
                        None => {
                            return Some(at);
                        },
                        Some(next) => {
                            if hops == 0 {
                                return None;
                            }
                            hops -= 1;
                            at = next;
                        },
                    }
                },
            }
        }
    }

    /// The live connections on the chain of delegations that starts at
    /// `link`, nearest first, followed for as many links as there are live
    /// connections at most.
    pub fn chain_from(&self, link: Option<u64>) -> (upstream: Vec<u64>)
        ensures
            upstream@ == chain(self.live(), link, self.live().dom().len()),
    {
        let uids = connection_uids(&self.connections);
        proof {
            uids@.unique_seq_to_set();
        }
        let mut hops: usize = uids.len();
        let mut at: Option<u64> = link;
        let mut upstream: Vec<u64> = Vec::new();
        assert(upstream@ + chain(self.live(), at, hops as nat) =~= chain(
            self.live(),
            link,
            self.live().dom().len(),
        ));
        loop
            invariant
                chain(self.live(), link, self.live().dom().len()) == upstream@ + chain(
                    self.live(),
                    at,
                    hops as nat,
                ),
            decreases hops,
        {
            match at {
                None => {
                    return upstream;
                },
                Some(next) => {
                    if hops == 0 {
                        return upstream;
                    }
                    match get_connection(&self.connections, next) {
                        None => {
                            return upstream;
                        },
                        Some(connection) => {
                            let ghost before = upstream@;
                            upstream.push(next);
                            assert(upstream@ + chain(
                                self.live(),
                                connection.delegate,
                                (hops - 1) as nat,
                            ) =~= before + (seq![next] + chain(
                                self.live(),
                                connection.delegate,
                                (hops - 1) as nat,
                            )));
                            hops -= 1;
                            at = connection.delegate;
                        },
                    }
                },
            }
        }
    }

    /// Hands a tick of the polling timer to the connection of the endpoint
    /// `uid`. Nothing happens for an endpoint without a live connection.
    pub fn tick(&mut self, uid: u64, now: u64, ttl: &TtlSettings) -> (tick: Tick)
        requires
            old(self).wf(),
        ensures
            final(self).wf(),
            final(self).registry() == old(self).registry(),
            final(self).kind() == old(self).kind(),
            final(self).options() == old(self).options(),
            !old(self).live().dom().contains(uid) ==> tick == Tick::Idle && final(self).live()
                == old(self).live(),
            old(self).live().dom().contains(uid) ==> {
                let before = old(self).live()[uid];
                if crate::connection::ttl_expired(*ttl, before.last_connect_time, now) {
                    &&& tick == Tick::Reset { reconnect: before.is_connected }
                    &&& final(self).live() == old(self).live().insert(
                        uid,
                        Connection { caps: None, last_connect_time: None, ..before },
                    )
                } else {
                    &&& tick == if before.is_connected {
                        Tick::Check
                    } else {
                        Tick::Idle
                    }
                    &&& final(self).live() == old(self).live()
                }
            },
    {
        match self.get(uid) {
            Some(mut connection) => {
                let tick = connection.on_tick(now, ttl);
                insert_connection(&mut self.connections, uid, connection);
                assert(final(self).live() =~= old(self).live().insert(uid, connection));
                tick
            },
            None => Tick::Idle,
        }
    }

    /// Hands a notice from the transport to the connection of the endpoint
    /// `uid` and says whether a health check is due at once. Nothing happens
    /// for an endpoint without a live connection.
    pub fn ctl(&mut self, uid: u64, ctl: Ctl, now: u64) -> (check: bool)
        requires
            old(self).wf(),
        ensures
            final(self).wf(),
            final(self).registry() == old(self).registry(),
            final(self).kind() == old(self).kind(),
            final(self).options() == old(self).options(),
            !old(self).live().dom().contains(uid) ==> !check && final(self).live() == old(
                self,
            ).live(),
            old(self).live().dom().contains(uid) ==> {
                let before = old(self).live()[uid];
                &&& check == (ctl == Ctl::Connect)
                &&& final(self).live() == old(self).live().insert(
                    uid,
                    match ctl {
                        Ctl::Connect => Connection {
                            is_connected: true,
                            last_connect_time: Some(now),
                            ..before
                        },
                        Ctl::Disconnect => Connection {
                            is_connected: false,
                            is_online: false,
                            last_connect_time: None,
                            ..before
                        },
                    },
                )
            },
    {
        match self.get(uid) {
            Some(mut connection) => {
                let check = connection.on_ctl(ctl, now);
                insert_connection(&mut self.connections, uid, connection);
                check
            },
            None => false,
        }
    }

    /// Records the load that the node behind the endpoint `uid` reports.
    /// Nothing happens for an endpoint without a live connection.
    pub fn update_load(&mut self, uid: u64, clients: u64, peers: u64)
        requires
            old(self).wf(),
            clients + peers <= u64::MAX,
        ensures
            final(self).wf(),
            final(self).registry() == old(self).registry(),
            final(self).kind() == old(self).kind(),
            final(self).options() == old(self).options(),
            !old(self).live().dom().contains(uid) ==> final(self).live() == old(self).live(),
            old(self).live().dom().contains(uid) ==> final(self).live() == old(self).live().insert(
                uid,
                Connection { clients, peers, ..old(self).live()[uid] },
            ),
    {
        match self.get(uid) {
            Some(mut connection) => {
                connection.update_load(clients, peers);
                insert_connection(&mut self.connections, uid, connection);
            },
            None => {},
        }
    }

    /// Starts a health check of the endpoint `uid`: says which call is to be
    /// made first and notes that its answer is awaited. `None`, and nothing
    /// noted, for an endpoint without a live connection.
    pub fn begin_update(&mut self, uid: u64) -> (request: Option<Request>)
        requires
            old(self).wf(),
        ensures
            final(self).wf(),
            final(self).kind() == old(self).kind(),
            final(self).options() == old(self).options(),
            final(self).registry() == old(self).registry(),
            !old(self).live().dom().contains(uid) ==> request.is_none() && final(self).live()
                == old(self).live(),
            old(self).live().dom().contains(uid) ==> {
                let before = old(self).live()[uid];
                &&& request == Some(before.first_request_spec())
                &&& final(self).live() == old(self).live().insert(
                    uid,
                    Connection { awaited: awaited_for(before.first_request_spec()), ..before },
                )
            },
    {
        match self.get(uid) {
            Some(mut connection) => {
                let request = connection.begin_check();
                insert_connection(&mut self.connections, uid, connection);
                Some(request)
            },
            None => None,
        }
    }

    /// Records the capabilities that the connection of the endpoint `uid`
    /// has fetched, and settles its role. Where another live connection that
    /// defers to none has claimed the same physical node, this one defers to
    /// it from now on. Otherwise this one claims the node and defers to
    /// none. A role is settled once for capabilities learnt: nothing happens
    /// for a connection that defers already or knows the capabilities
    /// already, nor for an endpoint without a live connection.
    pub fn resolve_caps(&mut self, uid: u64, caps: Caps) -> (resolution: Resolution)
        requires
            old(self).wf(),
        ensures
            final(self).wf(),
            final(self).kind() == old(self).kind(),
            final(self).options() == old(self).options(),
            !seeks_role(*old(self), uid) ==> {
                &&& resolution == Resolution::Ignored
                &&& final(self).live() == old(self).live()
                &&& final(self).registry() == old(self).registry()
            },
            seeks_role(*old(self), uid) ==> {
                &&& settled(*old(self), *final(self), uid, caps)
                &&& resolution == if defers(*old(self), uid, caps) {
                    Resolution::Deferred
                } else {
                    Resolution::Claimed
                }
            },
    {
        match self.get(uid) {
            Some(mut connection) => {
                if !connection.is_delegate() || connection.caps.is_some() {
                    return Resolution::Ignored;
                }
                let sid = caps.system_id();
                let key = Delegate::new(sid, connection.network_id()).registry_key();
                connection.sid = sid;
                connection.caps = Some(caps);
                let holder = get_primary(&self.delegates, key);
                let defer = match holder {
                    Some(other) => other != uid && match get_connection(&self.connections, other) {
                        Some(primary) => primary.is_delegate(),
                        None => false,
                    },
                    None => false,
                };
                if defer {
                    connection.bind_delegate(holder);
                    insert_connection(&mut self.connections, uid, connection);
                    Resolution::Deferred
                } else {
                    insert_primary(&mut self.delegates, key, uid);
                    connection.bind_delegate(None);
                    insert_connection(&mut self.connections, uid, connection);
                    Resolution::Claimed
                }
            },
            None => Resolution::Ignored,
        }
    }

    /// Takes what came back from a call of a health check of the endpoint
    /// `uid`, and says how the check goes on.
    ///
    /// Only the answer that the check is waiting for is taken, and an
    /// answer to a full poll only from a connection that polls its node
    /// itself; any other answer ends the check and changes nothing.
    ///
    /// After a ping that was answered the node counts as online.
    /// Capabilities that arrived are recorded and the role is settled as in
    /// [`Monitor::resolve_caps`]. A connection that has claimed its node by
    /// them hands the capabilities on as an event and goes on with the sync
    /// state; one that defers from now on is done, and its node counts as
    /// online. The sync state that arrived is held while the check goes on
    /// with the status. When the status has arrived, the sync state is
    /// recorded, the node counts as online, and the status is handed on as
    /// an event, filed under the connection's own identifiers. A failed call
    /// ends the check: the node counts as offline, and whatever else was
    /// known of it stays. For an endpoint without a live connection the
    /// check is over and nothing changes.
    pub fn advance(&mut self, uid: u64, response: Response) -> (progress: Progress)
        requires
            old(self).wf(),
        ensures
            final(self).wf(),
            final(self).kind() == old(self).kind(),
            final(self).options() == old(self).options(),
            !old(self).live().dom().contains(uid) ==> {
                &&& final(self).live() == old(self).live()
                &&& final(self).registry() == old(self).registry()
                &&& progress == Progress::Done(
                    Outcome { result: Ok(()), event: None, changed: false },
                )
            },
            old(self).live().dom().contains(uid) && !answers(old(self).live()[uid], response) ==> {
                &&& final(self).live() == old(self).live()
                &&& final(self).registry() == old(self).registry()
                &&& progress == Progress::Done(
                    Outcome { result: Err(Error::Unexpected), event: None, changed: false },
                )
            },
            old(self).live().dom().contains(uid) && answers(old(self).live()[uid], response) ==> {
                let before = old(self).live()[uid];
                match response {
                    Response::Ping(true) => ended(
                        *old(self),
                        *final(self),
                        uid,
                        progress,
                        Ok(()),
                        None,
                    ),
                    Response::Ping(false) => ended(
                        *old(self),
                        *final(self),
                        uid,
                        progress,
                        Err(Error::Rpc),
                        None,
                    ),
                    Response::Caps(None) => ended(
                        *old(self),
                        *final(self),
                        uid,
                        progress,
                        Err(Error::Rpc),
                        None,
                    ),
                    Response::Caps(Some(caps)) => if defers(*old(self), uid, caps) {
                        &&& final(self).registry() == old(self).registry()
                        &&& final(self).live() == old(self).live().insert(
                            uid,
                            Connection {
                                sid: caps.system_id,
                                caps: Some(caps),
                                delegate: claimant(*old(self), uid, caps),
                                is_online: true,
                                awaited: Awaited::Nothing,
                                ..before
                            },
                        )
                        &&& progress == Progress::Done(
                            Outcome { result: Ok(()), event: None, changed: !before.is_online },
                        )
                    } else {
                        &&& final(self).registry() == old(self).registry().insert(
                            claimed_key(*old(self), uid, caps),
                            uid,
                        )
                        &&& final(self).live() == old(self).live().insert(
                            uid,
                            Connection {
                                sid: caps.system_id,
                                caps: Some(caps),
                                delegate: None,
                                awaited: Awaited::Sync,
                                ..before
                            },
                        )
                        &&& progress == (Progress::Call {
                            request: Request::GetSync,
                            event: Some(Event::Caps { uid, caps }),
                        })
                    },
                    Response::Sync(None) => ended(
                        *old(self),
                        *final(self),
                        uid,
                        progress,
                        Err(Error::Status),
                        None,
                    ),
                    Response::Sync(Some(synced)) => {
                        &&& final(self).registry() == old(self).registry()
                        &&& final(self).live() == old(self).live().insert(
                            uid,
                            Connection { awaited: Awaited::Status { synced }, ..before },
                        )
                        &&& progress == (Progress::Call {
                            request: Request::GetStatus,
                            event: None,
                        })
                    },
                    Response::Status(None) => ended(
                        *old(self),
                        *final(self),
                        uid,
                        progress,
                        Err(Error::Metrics),
                        None,
                    ),
                    Response::Status(Some(status)) => {
                        let synced = before.awaited->synced;
                        &&& final(self).registry() == old(self).registry()
                        &&& final(self).live() == old(self).live().insert(
                            uid,
                            Connection {
                                is_synced: synced,
                                is_online: true,
                                awaited: Awaited::Nothing,
                                ..before
                            },
                        )
                        &&& progress == Progress::Done(
                            Outcome {
                                result: Ok(()),
                                event: Some(
                                    Event::Status {
                                        status: status.stamped_spec(uid, before.sid, synced),
                                    },
                                ),
                                changed: !before.is_online,
                            },
                        )
                    },
                }
            },
    {
        let mut connection = match self.get(uid) {
            Some(connection) => connection,
            None => {
                return Progress::Done(Outcome { result: Ok(()), event: None, changed: false });
            },
        };
        if !expected(&connection, &response) {
            return Progress::Done(
                Outcome { result: Err(Error::Unexpected), event: None, changed: false },
            );
        }
        match response {
            Response::Ping(true) => self.finish(uid, Ok(()), None),
            Response::Ping(false) => self.finish(uid, Err(Error::Rpc), None),
            Response::Caps(None) => self.finish(uid, Err(Error::Rpc), None),
            Response::Caps(Some(caps)) => {
                let learnt = caps.clone();
                match self.resolve_caps(uid, caps) {
                    Resolution::Deferred => {
                        let progress = self.finish(uid, Ok(()), None);
                        assert(final(self).live() =~= old(self).live().insert(
                            uid,
                            Connection {
                                sid: caps.system_id,
                                caps: Some(caps),
                                delegate: claimant(*old(self), uid, caps),
                                is_online: true,
                                awaited: Awaited::Nothing,
                                ..connection
                            },
                        ));
                        progress
                    },
                    _ => {
                        connection.sid = learnt.system_id();
                        connection.caps = Some(learnt.clone());
                        connection.bind_delegate(None);
                        connection.awaited = Awaited::Sync;
                        insert_connection(&mut self.connections, uid, connection);
                        assert(final(self).live() =~= old(self).live().insert(uid, connection));
                        Progress::Call {
                            request: Request::GetSync,
                            event: Some(Event::Caps { uid, caps: learnt }),
                        }
                    },
                }
            },
            Response::Sync(None) => self.finish(uid, Err(Error::Status), None),
            Response::Sync(Some(synced)) => {
                connection.awaited = Awaited::Status { synced };
                insert_connection(&mut self.connections, uid, connection);
                Progress::Call { request: Request::GetStatus, event: None }
            },
            Response::Status(None) => self.finish(uid, Err(Error::Metrics), None),
            Response::Status(Some(status)) => {
                let synced = match connection.awaited {
                    Awaited::Status { synced } => synced,
                    _ => false,
                };
                let changed = connection.set_online(true);
                connection.is_synced = synced;
                connection.awaited = Awaited::Nothing;
                let status = status.stamped(uid, connection.sid, synced);
                insert_connection(&mut self.connections, uid, connection);
                Progress::Done(
                    Outcome { result: Ok(()), event: Some(Event::Status { status }), changed },
                )
            },
        }
    }

    /// Adapts the pool to a desired list of endpoints.
    ///
    /// The entries of the pool's service are taken out of the list; the
    /// others stay in it, in their order. A connection is made for every
    /// endpoint taken that has none, where a client exists for its
    /// transport; a live connection whose endpoint was not taken is removed.
    /// Then delegations are put in order: one that points at an endpoint
    /// that is gone is dropped, and within each physical node the
    /// connections of the other transport variants are bound to the node's
    /// preferred primary. The registry is left as it is.
    ///
    /// The result names the endpoints whose connections were made, those
    /// whose connections were removed, and those that no connection could
    /// be made for.
    pub fn update_nodes(&mut self, global_node_list: &mut Vec<NodeConfig>) -> (changes: Changes)
        requires
            old(self).wf(),
        ensures
            final(self).wf(),
            final(self).kind() == old(self).kind(),
            final(self).options() == old(self).options(),
            final(self).registry() == old(self).registry(),
            final(self).live() == reconciled(
                old(self).live(),
                old(global_node_list)@,
                old(self).kind(),
                old(self).options().verbose,
            ),
            final(global_node_list)@ == old(global_node_list)@.filter(
                of_other_service(old(self).kind()),
            ),
            changes.created@ == created(
                old(self).live(),
                old(global_node_list)@,
                old(self).kind(),
                old(self).options().verbose,
            ),
            changes.failed@ == refused(
                old(self).live(),
                old(global_node_list)@,
                old(self).kind(),
                old(self).options().verbose,
            ),
            changes.removed@.no_duplicates(),
            changes.removed@.to_set() == old(self).live().dom().difference(
                final(self).live().dom(),
            ),
    {
        let ghost list = global_node_list@;
        let ghost live = self.live();
        let ghost verbose = self.args.verbose;
        let ghost service = self.service;
        let mut next = new_connections();
        let mut created_uids: Vec<u64> = Vec::new();
        let mut failed: Vec<(u64, Error)> = Vec::new();
        let mut rest: Vec<NodeConfig> = Vec::new();
        let mut at: usize = 0;
        assert(list.take(0) =~= Seq::<NodeConfig>::empty());
        assert(connections_in(next) =~= restructured(live, list.take(0), service, verbose));
        while at < global_node_list.len()
            invariant
                at <= list.len(),
                global_node_list@ == list,
                self.live() == live,
                self.args.verbose == verbose,
                self.service == service,
                well_filed(live),
                well_filed(connections_in(next)),
                connections_in(next) == restructured(live, list.take(at as int), service, verbose),
                created_uids@ == created(live, list.take(at as int), service, verbose),
                failed@ == refused(live, list.take(at as int), service, verbose),
                rest@ == list.take(at as int).filter(of_other_service(service)),
            decreases list.len() - at,
        {
            let node = &global_node_list[at];
            proof {
                let upto = list.take(at as int + 1);
                assert(upto.drop_last() =~= list.take(at as int));
                assert(upto.last() == list[at as int]);
                assert(upto =~= list.take(at as int).push(list[at as int]));
                list.take(at as int).lemma_filter_push(list[at as int], of_other_service(service));
            }
            if node.service() == self.service {
                let uid = node.uid();
                if get_connection(&next, uid).is_none() {
                    match get_connection(&self.connections, uid) {
                        Some(existing) => {
                            insert_connection(&mut next, uid, existing.clone());
                        },
                        None => {
                            match Connection::try_new(&self.args, node.clone()) {
                                Ok(connection) => {
                                    insert_connection(&mut next, uid, connection);
                                    created_uids.push(uid);
                                },
                                Err(error) => {
                                    failed.push((uid, error));
                                },
                            }
                        },
                    }
                }
            } else {
                rest.push(node.clone());
            }
            at += 1;
        }
        assert(list.take(at as int) =~= list);
        let ghost kept = connections_in(next);

        let former = connection_uids(&self.connections);
        let mut removed: Vec<u64> = Vec::new();
        let mut at: usize = 0;
        while at < former.len()
            invariant
                at <= former@.len(),
                former@.no_duplicates(),
                connections_in(next) == kept,
                removed@.no_duplicates(),
                forall|uid: u64|
                    removed@.contains(uid) <==> seen(former@, at as int, uid) && !kept.dom().contains(
                        uid,
                    ),
            decreases former@.len() - at,
        {
            let uid = former[at];
            let ghost before = removed@;
            proof {
                assert(!seen(former@, at as int, uid)) by {
                    if seen(former@, at as int, uid) {
                        let j = choose|j: int| 0 <= j < at && former@[j] == uid;
                        assert(former@[j] == former@[at as int]);
                    }
                }
                assert(!before.contains(uid));
            }
            let gone = get_connection(&next, uid).is_none();
            if gone {
                removed.push(uid);
                proof {
                    assert forall|other: u64| removed@.contains(other) <==> before.contains(other)
                        || other == uid by {
                        if before.contains(other) {
                            let j = choose|j: int| 0 <= j < before.len() && before[j] == other;
                            assert(removed@[j] == other);
                        }
                        assert(removed@[before.len() as int] == uid);
                    }
                }
            }
            at += 1;
            proof {
                assert forall|other: u64| removed@.contains(other) <==> seen(
                    former@,
                    at as int,
                    other,
                ) && !kept.dom().contains(other) by {
                    lemma_seen_step(former@, at as int - 1, other);
                    assert(before.contains(other) <==> seen(former@, at as int - 1, other)
                        && !kept.dom().contains(other));
                }
            }
        }

        let uids = connection_uids(&next);
        let mut loosened = new_connections();
        let mut at: usize = 0;
        assert(connections_in(loosened) =~= Map::new(
            |uid: u64| seen(uids@, 0, uid),
            |uid: u64| released_one(kept, kept[uid]),
        ));
        while at < uids.len()
            invariant
                at <= uids@.len(),
                uids@.to_set() == kept.dom(),
                connections_in(next) == kept,
                connections_in(loosened) == Map::new(
                    |uid: u64| seen(uids@, at as int, uid),
                    |uid: u64| released_one(kept, kept[uid]),
                ),
            decreases uids@.len() - at,
        {
            let uid = uids[at];
            proof {
                assert(uids@.to_set().contains(uids@[at as int]));
                assert forall|other: u64|
                    seen(uids@, at as int + 1, other) <==> seen(uids@, at as int, other) || other
                        == uid by {
                    lemma_seen_step(uids@, at as int, other);
                }
            }
            match get_connection(&next, uid) {
                Some(found) => {
                    let mut connection = found.clone();
                    if let Some(upstream) = connection.delegate {
                        if get_connection(&next, upstream).is_none() {
                            connection.bind_delegate(None);
                            connection.caps = None;
                        }
                    }
                    insert_connection(&mut loosened, uid, connection);
                },
                None => {
                    assert(false);
                },
            }
            at += 1;
        }
        proof {
            assert forall|uid: u64| seen(uids@, uids@.len() as int, uid) <==> kept.dom().contains(
                uid,
            ) by {
                lemma_seen_all(uids@, uid);
            }
            assert(connections_in(loosened) =~= released(kept));
        }
        let ghost freed = released(kept);

        let mut bound = new_connections();
        let mut at: usize = 0;
        assert(connections_in(bound) =~= Map::new(
            |uid: u64| seen(uids@, 0, uid),
            |uid: u64| rebound_one(freed, freed[uid]),
        ));
        while at < uids.len()
            invariant
                at <= uids@.len(),
                uids@.to_set() == freed.dom(),
                connections_in(loosened) == freed,
                connections_in(bound) == Map::new(
                    |uid: u64| seen(uids@, at as int, uid),
                    |uid: u64| rebound_one(freed, freed[uid]),
                ),
            decreases uids@.len() - at,
        {
            let uid = uids[at];
            proof {
                assert(uids@.to_set().contains(uids@[at as int]));
                assert forall|other: u64|
                    seen(uids@, at as int + 1, other) <==> seen(uids@, at as int, other) || other
                        == uid by {
                    lemma_seen_step(uids@, at as int, other);
                }
            }
            match get_connection(&loosened, uid) {
                Some(found) => {
                    let mut connection = found.clone();
                    if connection.node.transport_kind() != TransportKind::WrpcBorsh {
                        let primary = preferred_primary(
                            &loosened,
                            &uids,
                            connection.node.network_node_uid(),
                        );
                        if primary.is_some() {
                            connection.bind_delegate(primary);
                        }
                    }
                    insert_connection(&mut bound, uid, connection);
                },
                None => {
                    assert(false);
                },
            }
            at += 1;
        }
        proof {
            assert forall|uid: u64| seen(uids@, uids@.len() as int, uid) <==> freed.dom().contains(
                uid,
            ) by {
                lemma_seen_all(uids@, uid);
            }
            assert(connections_in(bound) =~= rebound(freed));
            assert(rebound(freed).dom() =~= kept.dom());
            assert(well_filed(rebound(freed)));
            assert forall|uid: u64| seen(former@, former@.len() as int, uid) <==> live.dom().contains(
                uid,
            ) by {
                lemma_seen_all(former@, uid);
            }
            assert(removed@.to_set() =~= live.dom().difference(rebound(freed).dom()));
        }
        self.connections = bound;
        *global_node_list = rest;
        Changes { created: created_uids, removed, failed }
    }

    /// Shuts the pool down: every connection is removed. The result names
    /// the endpoints whose polling loops are to be stopped, each once.
    pub fn stop(&mut self) -> (stopped: Vec<u64>)
        requires
            old(self).wf(),
        ensures
            final(self).wf(),
            final(self).kind() == old(self).kind(),
            final(self).options() == old(self).options(),
            final(self).registry() == old(self).registry(),
            final(self).live() == Map::<u64, Connection>::empty(),
            stopped@.no_duplicates(),
            stopped@.to_set() == old(self).live().dom(),
    {
        let stopped = connection_uids(&self.connections);
        self.connections = new_connections();
        assert(self.live() =~= Map::<u64, Connection>::empty());
        stopped
    }

    /// Ends a health check of a live connection with `result`.
    fn finish(&mut self, uid: u64, result: Result<(), Error>, event: Option<Event>) -> (progress:
        Progress)
        requires
            old(self).wf(),
            old(self).live().dom().contains(uid),
        ensures
            final(self).wf(),
            final(self).kind() == old(self).kind(),
            final(self).options() == old(self).options(),
            ended(*old(self), *final(self), uid, progress, result, event),
    {
        let online = result.is_ok();
        let mut changed = false;
        match self.get(uid) {
            Some(mut connection) => {
                changed = connection.set_online(online);
                connection.awaited = Awaited::Nothing;
                insert_connection(&mut self.connections, uid, connection);
            },
            None => {},
        }
        Progress::Done(Outcome { result, event, changed })
    }
}

/// Whether the answer is the one that the connection's health check is
/// waiting for. An answer to a full poll counts only while the connection
/// polls its node itself, and capabilities only while it knows none.
pub open spec fn answers(connection: Connection, response: Response) -> bool {
    match response {
        Response::Ping(_) => connection.awaited == Awaited::Ping,
        Response::Caps(_) => connection.awaited == Awaited::Caps && connection.is_primary()
            && connection.caps.is_none(),
        Response::Sync(_) => connection.awaited == Awaited::Sync && connection.is_primary(),
        Response::Status(_) => connection.awaited is Status && connection.is_primary(),
    }
}

/// Tests whether the answer is the one that the connection's health check is
/// waiting for.
fn expected(connection: &Connection, response: &Response) -> (taken: bool)
    ensures
        taken == answers(*connection, *response),
{
    match response {
        Response::Ping(_) => match connection.awaited {
            Awaited::Ping => true,
            _ => false,
        },
        Response::Caps(_) => match connection.awaited {
            Awaited::Caps => connection.is_delegate() && connection.caps.is_none(),
            _ => false,
        },
        Response::Sync(_) => match connection.awaited {
            Awaited::Sync => connection.is_delegate(),
            _ => false,
        },
        Response::Status(_) => match connection.awaited {
            Awaited::Status { synced: _ } => connection.is_delegate(),
            _ => false,
        },
    }
}

/// A health check of the live connection `uid` has ended with `result`: the
/// node counts as online exactly if the result is `Ok`, no answer is
/// awaited any more, and nothing else has changed.
pub open spec fn ended(
    before: Monitor,
    after: Monitor,
    uid: u64,
    progress: Progress,
    result: Result<(), Error>,
    event: Option<Event>,
) -> bool {
    &&& after.registry() == before.registry()
    &&& after.live() == before.live().insert(
        uid,
        Connection { is_online: result.is_ok(), awaited: Awaited::Nothing, ..before.live()[uid] },
    )
    &&& progress == Progress::Done(
        Outcome { result, event, changed: before.live()[uid].is_online != result.is_ok() },
    )
}

/// Whether the endpoint `uid` has a live connection whose role is still to
/// be settled: it defers to none and knows no capabilities.
pub open spec fn seeks_role(pool: Monitor, uid: u64) -> bool {
    &&& pool.live().dom().contains(uid)
    &&& pool.live()[uid].is_primary()
    &&& pool.live()[uid].caps.is_none()
}

/// The physical node that the live connection `uid` claims or finds claimed
/// when it learns the capabilities `caps`.
pub open spec fn claimed_key(pool: Monitor, uid: u64, caps: Caps) -> (u64, u64) {
    (Delegate { system_id: caps.system_id, network_id: pool.live()[uid].node.network }).key()
}

/// The endpoint that the registry names for the physical node that the
/// connection `uid` learns of by the capabilities `caps`.
pub open spec fn claimant(pool: Monitor, uid: u64, caps: Caps) -> Option<u64> {
    if pool.registry().dom().contains(claimed_key(pool, uid, caps)) {
        Some(pool.registry()[claimed_key(pool, uid, caps)])
    } else {
        None
    }
}

/// Whether the connection `uid` defers to another when it learns the
/// capabilities `caps`: the registry names a live primary other than
/// itself for the physical node.
pub open spec fn defers(pool: Monitor, uid: u64, caps: Caps) -> bool {
    can_defer_to(pool.live(), claimant(pool, uid, caps), uid)
}

/// The connection `uid` has recorded the capabilities `caps` and its role
/// is settled: it defers to the live primary that had claimed the physical
/// node, if there is another, and else claims the node itself.
pub open spec fn settled(before: Monitor, after: Monitor, uid: u64, caps: Caps) -> bool {
    let was = before.live()[uid];
    if defers(before, uid, caps) {
        &&& after.registry() == before.registry()
        &&& after.live() == before.live().insert(
            uid,
            Connection {
                sid: caps.system_id,
                caps: Some(caps),
                delegate: claimant(before, uid, caps),
                ..was
            },
        )
    } else {
        &&& after.registry() == before.registry().insert(claimed_key(before, uid, caps), uid)
        &&& after.live() == before.live().insert(
            uid,
            Connection { sid: caps.system_id, caps: Some(caps), delegate: None, ..was },
        )
    }
}

/// Of two connections that learn of the same physical node one after the
/// other, the first claims the node, unless a live primary had claimed it
/// before, and the second defers to the first. So the first stays the
/// primary and the second resolves to it.
pub proof fn lemma_second_claimant_defers(
    before: Monitor,
    between: Monitor,
    after: Monitor,
    first: u64,
    second: u64,
    first_caps: Caps,
    second_caps: Caps,
)
    requires
        before.wf(),
        first != second,
        before.live().dom().contains(first),
        before.live().dom().contains(second),
        claimed_key(before, first, first_caps) == claimed_key(before, second, second_caps),
        !defers(before, first, first_caps),
        settled(before, between, first, first_caps),
        settled(between, after, second, second_caps),
    ensures
        after.live()[first].is_primary(),
        after.live()[second].delegate == Some(first),
        chain_end(after.live(), second, after.live().dom().len()) == Some(first),
        chain_end(after.live(), first, after.live().dom().len()) == Some(first),
{
    let key = claimed_key(before, first, first_caps);
    assert(between.registry()[key] == first);
    assert(between.live()[first].delegate.is_none());
    assert(between.live()[second] == before.live()[second]);
    assert(claimed_key(between, second, second_caps) == key);
    assert(can_defer_to(between.live(), Some(first), second));
    assert(after.live().dom() =~= before.live().dom());
    assert(after.live().dom().len() > 0) by {
        if after.live().dom().len() == 0 {
            after.live().dom().lemma_len0_is_empty();
        }
    }
    assert(chain_end(after.live(), first, (after.live().dom().len() - 1) as nat) == Some(first));
}

impl Connection {
    /// The primary this connection resolves to among the connections of
    /// `pool`: itself where it defers to none, and else the end of the chain
    /// of delegations, as [`Monitor::primary_of`] finds it.
    pub fn delegate(&self, pool: &Monitor) -> (primary: Option<u64>)
        ensures
            primary == match self.delegate {
                None => Some(self.node.uid),
                Some(next) => chain_end(pool.live(), next, pool.live().dom().len()),
            },
    {
        match self.delegate {
            None => Some(self.node.uid()),
            Some(next) => pool.primary_of(next),
        }
    }

    /// The live connections of `pool` that this connection defers to,
    /// nearest first.
    pub fn resolve_delegates(&self, pool: &Monitor) -> (upstream: Vec<u64>)
        ensures
            upstream@ == chain(pool.live(), self.delegate, pool.live().dom().len()),
    {
        pool.chain_from(self.delegate)
    }
}

} // verus!
