use crate::caps::Caps;
use crate::error::Error;
use crate::hex::{format_hex16, hex16};
use crate::network::{decimal, NetworkId};
use crate::node::NodeConfig;
use crate::transport::TransportKind;
use vstd::prelude::*;

verus! {

pub const BIAS_SCALE: u64 = 1_000_000;

/// Options the hub and its connections run with.
#[derive(Debug, Clone, Copy, PartialEq, Eq, Structural)]
pub struct Args {
    pub verbose: bool,
    pub trace: bool,
    pub debug: bool,
}

/// How long learnt capabilities are trusted. Times are in milliseconds.
#[derive(Debug, Clone, Copy, PartialEq, Eq, Structural)]
pub struct TtlSettings {
    /// Whether capabilities expire at all.
    pub enable: bool,
    /// The age past which capabilities are dropped and the session is reset.
    pub ttl: u64,
}

/// How often a connection turns to its node. Times are in milliseconds.
#[derive(Debug, Clone, Copy, PartialEq, Eq, Structural)]
pub struct SyncSettings {
    /// The period between two polls of a connection that polls its node
    /// itself.
    pub poll: u64,
    /// The period between two pings of a connection that defers to another.
    pub ping: u64,
}

/// A notice from the transport that the session came up or went down.
#[derive(Debug, Clone, Copy, PartialEq, Eq, Structural)]
pub enum Ctl {
    Connect,
    Disconnect,
}

/// What the polling loop has to do after a timer tick.
#[derive(Debug, Clone, Copy, PartialEq, Eq, Structural)]
pub enum Tick {
    /// The capabilities have expired and were dropped. Where `reconnect` is
    /// set, the session is to be closed and opened again. Nothing else
    /// happens in this tick.
    Reset { reconnect: bool },
    /// The session is up: run a health check.
    Check,
    /// The session is down: nothing to do.
    Idle,
}

/// A call the polling loop makes to the node during a health check.
#[derive(Debug, Clone, Copy, PartialEq, Eq, Structural)]
pub enum Request {
    Ping,
    GetCaps,
    GetSync,
    GetStatus,
}

/// The answer a health check is waiting for.
#[derive(Debug, Clone, Copy, PartialEq, Eq, Structural)]
pub enum Awaited {
    /// No check is under way.
    Nothing,
    Ping,
    Caps,
    Sync,
    /// The status is awaited. The sync state that arrived before it is held
    /// here, and is recorded only once the status has arrived too.
    Status { synced: bool },
}

/// The connection to one configured endpoint: its configuration and what is
/// known of the node behind it.
#[derive(Debug)]
pub struct Connection {
    /// Whether transitions are reported.
    pub verbose: bool,
    /// The node's capabilities, once fetched; replaced as a whole.
    pub caps: Option<Caps>,
    /// Whether the node reported itself synced at the last poll.
    pub is_synced: bool,
    /// The system identifier the node reported, zero until then.
    pub sid: u64,
    /// Clients currently served by the node.
    pub clients: u64,
    /// Peers currently connected to the node.
    pub peers: u64,
    /// The endpoint's configuration.
    pub node: NodeConfig,
    /// The endpoint identifier of the connection this one defers to; `None`
    /// for a connection that polls the node itself.
    pub delegate: Option<u64>,
    /// Whether the transport session is up.
    pub is_connected: bool,
    /// Whether the last health check succeeded.
    pub is_online: bool,
    /// When the transport session last came up, while it is up and the
    /// capabilities learnt since have not expired.
    pub last_connect_time: Option<u64>,
    /// The answer that the health check under way is waiting for.
    pub awaited: Awaited,
}

impl Clone for Connection {
    fn clone(&self) -> (copy: Self)
        ensures
            copy == *self,
    {
        let caps = match &self.caps {
            Some(caps) => Some(caps.clone()),
            None => None,
        };
        Connection {
            verbose: self.verbose,
            caps,
            is_synced: self.is_synced,
            sid: self.sid,
            clients: self.clients,
            peers: self.peers,
            node: self.node.clone(),
            delegate: self.delegate,
            is_connected: self.is_connected,
            is_online: self.is_online,
            last_connect_time: self.last_connect_time,
            awaited: self.awaited,
        }
    }
}

/// The state of a connection that was just made for `node`.
pub open spec fn fresh_connection(verbose: bool, node: NodeConfig) -> Connection {
    Connection {
        verbose,
        caps: None,
        is_synced: false,
        sid: 0,
        clients: 0,
        peers: 0,
        node,
        delegate: None,
        is_connected: false,
        is_online: false,
        last_connect_time: None,
        awaited: Awaited::Nothing,
    }
}

/// The answer that a call leads to.
pub open spec fn awaited_for(request: Request) -> Awaited {
    match request {
        Request::Ping => Awaited::Ping,
        Request::GetCaps => Awaited::Caps,
        Request::GetSync => Awaited::Sync,
        Request::GetStatus => Awaited::Status { synced: false },
    }
}

/// Whether capabilities learnt in a session that came up at `connected_at`
/// have expired at `now`.
pub open spec fn ttl_expired(ttl: TtlSettings, connected_at: Option<u64>, now: u64) -> bool {
    ttl.enable && connected_at.is_some() && now - connected_at.unwrap() > ttl.ttl
}

impl Connection {
    /// The load counters can be added up.
    pub open spec fn wf(&self) -> bool {
        self.clients + self.peers <= u64::MAX
    }

    /// Whether the connection polls the node itself, deferring to no other.
    pub open spec fn is_primary(&self) -> bool {
        self.delegate.is_none()
    }

    /// Whether the node can take another client: the connection polls the
    /// node itself, the node is online, its capabilities are known, and both
    /// the client limit and the file descriptor limit leave room.
    pub open spec fn available(&self) -> bool {
        &&& self.is_primary()
        &&& self.is_online
        &&& self.caps.is_some()
        &&& self.clients < self.caps.unwrap().clients_limit
        &&& self.clients + self.peers < self.caps.unwrap().fd_limit
    }

    /// The word that sums up the state of the connection.
    pub open spec fn status_text(&self) -> Seq<char> {
        if self.is_connected {
            if !self.is_primary() {
                "delegator"@
            } else if self.is_synced {
                "online"@
            } else {
                "syncing"@
            }
        } else {
            "offline"@
        }
    }

    /// Makes the connection for an endpoint: offline, with nothing known of
    /// the node, deferring to no other connection. Fails for a transport
    /// that no client exists for.
    pub fn try_new(args: &Args, node: NodeConfig) -> (made: Result<Connection, Error>)
        ensures
            node.transport_kind == TransportKind::Grpc ==> made == Err::<Connection, Error>(
                Error::UnsupportedTransport(TransportKind::Grpc),
            ),
            node.transport_kind != TransportKind::Grpc ==> made == Ok::<Connection, Error>(
                fresh_connection(args.verbose, node),
            ),
    {
        match node.transport_kind {
            TransportKind::WrpcBorsh | TransportKind::WrpcJson => Ok(
                Connection {
                    verbose: args.verbose,
                    caps: None,
                    is_synced: false,
                    sid: 0,
                    clients: 0,
                    peers: 0,
                    node,
                    delegate: None,
                    is_connected: false,
                    is_online: false,
                    last_connect_time: None,
                    awaited: Awaited::Nothing,
                },
            ),
            TransportKind::Grpc => Err(Error::UnsupportedTransport(TransportKind::Grpc)),
        }
    }

    #[inline]
    pub fn verbose(&self) -> (verbose: bool)
        ensures
            verbose == self.verbose,
    {
        self.verbose
    }

    #[inline]
    pub fn score(&self) -> (score: u64)
        ensures
            score == self.clients,
    {
        self.clients
    }

    #[inline]
    pub fn is_available(&self) -> (available: bool)
        ensures
            available == self.available(),
    {
        if !self.is_delegate() || !self.online() {
            return false;
        }
        match &self.caps {
            Some(caps) => {
                let clients = self.clients();
                let peers = self.peers();
                match clients.checked_add(peers) {
                    Some(sockets) => clients < caps.clients_limit && sockets < caps.fd_limit,
                    None => false,
                }
            },
            None => false,
        }
    }

    #[inline]
    pub fn connected(&self) -> (connected: bool)
        ensures
            connected == self.is_connected,
    {
        self.is_connected
    }

    #[inline]
    pub fn online(&self) -> (online: bool)
        ensures
            online == self.is_online,
    {
        self.is_online
    }

    #[inline]
    pub fn is_synced(&self) -> (synced: bool)
        ensures
            synced == self.is_synced,
    {
        self.is_synced
    }

    #[inline]
    pub fn clients(&self) -> (clients: u64)
        ensures
            clients == self.clients,
    {
        self.clients
    }

    #[inline]
    pub fn peers(&self) -> (peers: u64)
        ensures
            peers == self.peers,
    {
        self.peers
    }

    #[inline]
    pub fn sockets(&self) -> (sockets: u64)
        requires
            self.wf(),
        ensures
            sockets == self.clients + self.peers,
    {
        self.clients() + self.peers()
    }

    #[inline]
    pub fn caps(&self) -> (caps: Option<Caps>)
        ensures
            caps == self.caps,
    {
        match &self.caps {
            Some(caps) => Some(caps.clone()),
            None => None,
        }
    }

    #[inline]
    pub fn uid(&self) -> (uid: u64)
        ensures
            uid == self.node.uid,
    {
        self.node.uid()
    }

    #[inline]
    pub fn sid(&self) -> (sid: u64)
        ensures
            sid == self.sid,
    {
        self.sid
    }

    #[inline]
    pub fn address(&self) -> (address: &str)
        ensures
            address@ == self.node.address@,
    {
        self.node.address.as_str()
    }

    #[inline]
    pub fn node(&self) -> (node: &NodeConfig)
        ensures
            *node == self.node,
    {
        &self.node
    }

    #[inline]
    pub fn network_id(&self) -> (network: NetworkId)
        ensures
            network == self.node.network,
    {
        self.node.network
    }

    /// Whether the connection defers to no other, that is, polls the node
    /// itself.
    #[inline]
    pub fn is_delegate(&self) -> (primary: bool)
        ensures
            primary == self.is_primary(),
    {
        self.delegate.is_none()
    }

    /// Makes the connection defer to the connection of the endpoint
    /// `delegate`, or to none.
    #[inline]
    pub fn bind_delegate(&mut self, delegate: Option<u64>)
        ensures
            *final(self) == (Connection { delegate, ..*old(self) }),
    {
        self.delegate = delegate;
    }

    /// Records the load the node reports.
    pub fn update_load(&mut self, clients: u64, peers: u64)
        requires
            clients + peers <= u64::MAX,
        ensures
            *final(self) == (Connection { clients, peers, ..*old(self) }),
            final(self).wf(),
    {
        self.clients = clients;
        self.peers = peers;
    }

    pub fn status(&self) -> (status: &'static str)
        ensures
            status@ == self.status_text(),
    {
        if self.connected() {
            if !self.is_delegate() {
                "delegator"
            } else if self.is_synced() {
                "online"
            } else {
                "syncing"
            }
        } else {
            "offline"
        }
    }

    /// Reacts to a tick of the polling timer at time `now`. Expired
    /// capabilities are dropped, together with the time of the last connect,
    /// and the session is to be reset if it is up; otherwise a session that
    /// is up is due a health check.
    pub fn on_tick(&mut self, now: u64, ttl: &TtlSettings) -> (tick: Tick)
        ensures
            ttl_expired(*ttl, old(self).last_connect_time, now) ==> {
                &&& tick == Tick::Reset { reconnect: old(self).is_connected }
                &&& *final(self) == (Connection {
                    caps: None,
                    last_connect_time: None,
                    ..*old(self)
                })
            },
            !ttl_expired(*ttl, old(self).last_connect_time, now) ==> {
                &&& tick == if old(self).is_connected {
                    Tick::Check
                } else {
                    Tick::Idle
                }
                &&& *final(self) == *old(self)
            },
    {
        if ttl.enable {
            if let Some(connected_at) = self.last_connect_time {
                if now > connected_at && now - connected_at > ttl.ttl {
                    self.last_connect_time = None;
                    self.caps = None;
                    return Tick::Reset { reconnect: self.is_connected };
                }
            }
        }
        if self.is_connected {
            Tick::Check
        } else {
            Tick::Idle
        }
    }

    /// Reacts to a notice from the transport at time `now`. When the session
    /// comes up, the time is recorded and a health check is due at once;
    /// when it goes down, the node counts as offline.
    pub fn on_ctl(&mut self, ctl: Ctl, now: u64) -> (check: bool)
        ensures
            check == (ctl == Ctl::Connect),
            ctl == Ctl::Connect ==> *final(self) == (Connection {
                is_connected: true,
                last_connect_time: Some(now),
                ..*old(self)
            }),
            ctl == Ctl::Disconnect ==> *final(self) == (Connection {
                is_connected: false,
                is_online: false,
                last_connect_time: None,
                ..*old(self)
            }),
    {
        match ctl {
            Ctl::Connect => {
                self.last_connect_time = Some(now);
                self.is_connected = true;
                true
            },
            Ctl::Disconnect => {
                self.is_connected = false;
                self.is_online = false;
                self.last_connect_time = None;
                false
            },
        }
    }

    /// The period of the connection's polling timer: the poll period while
    /// it polls the node itself, the ping period while it defers to another.
    pub fn interval(&self, settings: &SyncSettings) -> (period: u64)
        ensures
            period == if self.is_primary() {
                settings.poll
            } else {
                settings.ping
            },
    {
        if self.is_delegate() {
            settings.poll
        } else {
            settings.ping
        }
    }

    /// Records the result of a health check and says whether the node went
    /// online or offline by it.
    pub fn set_online(&mut self, online: bool) -> (changed: bool)
        ensures
            changed == (old(self).is_online != online),
            *final(self) == (Connection { is_online: online, ..*old(self) }),
    {
        let previous = self.is_online;
        self.is_online = online;
        online != previous
    }

    /// The first call of a health check: a connection that defers to another
    /// only pings; one that polls the node itself fetches the capabilities
    /// while they are unknown, and otherwise goes on to the sync state.
    pub open spec fn first_request_spec(&self) -> Request {
        if !self.is_primary() {
            Request::Ping
        } else if self.caps.is_none() {
            Request::GetCaps
        } else {
            Request::GetSync
        }
    }

    /// Computes the first call of a health check.
    pub fn first_request(&self) -> (request: Request)
        ensures
            request == self.first_request_spec(),
    {
        if !self.is_delegate() {
            Request::Ping
        } else if self.caps.is_none() {
            Request::GetCaps
        } else {
            Request::GetSync
        }
    }

    /// Starts a health check: says which call is to be made first, as
    /// [`Connection::first_request`] has it, and notes that its answer is
    /// awaited.
    pub fn begin_check(&mut self) -> (request: Request)
        ensures
            request == old(self).first_request_spec(),
            *final(self) == (Connection { awaited: awaited_for(request), ..*old(self) }),
    {
        let request = self.first_request();
        self.awaited = match request {
            Request::Ping => Awaited::Ping,
            Request::GetCaps => Awaited::Caps,
            Request::GetSync => Awaited::Sync,
            Request::GetStatus => Awaited::Status { synced: false },
        };
        request
    }

    /// Renders the connection as `[sid:uid] [sockets] address`: the
    /// identifiers in sixteen hexadecimal digits each, the number of sockets
    /// in decimal, right-aligned in four columns.
    pub fn to_string(&self) -> (text: String)
        requires
            self.wf(),
        ensures
            text@ == seq!['['] + hex16(self.sid) + seq![':'] + hex16(self.node.uid) + seq![
                ']',
                ' ',
                '[',
            ] + right_aligned(decimal((self.clients + self.peers) as nat), 4) + seq![']', ' ']
                + self.node.address@,
    {
        let mut text = "[".to_string();
        let sid = format_hex16(self.sid);
        text = text.concat(sid.as_str());
        text = text.concat(":");
        let uid = format_hex16(self.node.uid);
        text = text.concat(uid.as_str());
        text = text.concat("] [");
        let sockets = format_right4(self.sockets());
        text = text.concat(sockets.as_str());
        text = text.concat("] ");
        text = text.concat(self.node.address.as_str());
        proof {
            reveal_strlit("[");
            reveal_strlit(":");
            reveal_strlit("] [");
            reveal_strlit("] ");
            assert("["@ =~= seq!['[']);
            assert(":"@ =~= seq![':']);
            assert("] ["@ =~= seq![']', ' ', '[']);
            assert("] "@ =~= seq![']', ' ']);
        }
        text
    }
}

/// A text moved to the right end of a field of `width` columns, the columns
/// before it filled with spaces; a text that is wider stays as it is.
pub open spec fn right_aligned(text: Seq<char>, width: nat) -> Seq<char> {
    if text.len() >= width {
        text
    } else {
        Seq::new((width - text.len()) as nat, |i: int| ' ') + text
    }
}

/// Formats with std's `{:>4}`: the number in decimal, padded with spaces on
/// the left to four columns.
#[verifier::external_body]
fn format_right4(v: u64) -> (s: String)
    ensures
        s@ == right_aligned(decimal(v as nat), 4),
{
    format!("{:>4}", v)
}

} // verus!
