use crate::caps::Caps;
use crate::connection::{Args, Connection};
use crate::error::Error;
use crate::event::Event;
use crate::message::{
    GetStatusRequest, GetStatusResponse, Notification, PingRequest, PingResponse, Update,
};
use crate::monitor::{bearing, lists_all, lists_caps, Changes, Monitor};
use crate::node::NodeConfig;
use crate::reconcile::{
    created, lemma_other_services_ignored, of_other_service, reconciled, refused,
};
use crate::services::ServiceKind;
use crate::table::{
    insert_subscriber, new_subscribers, remove_subscriber, subscriber_ids, subscribers_in,
};
use ahash::AHashSet;
use vstd::prelude::*;
use vstd::string::StringExecFns;

verus! {

/// What the hub's loop has to do about an event.
#[derive(Debug)]
pub enum Action {
    /// Pull the desired configuration and hand the answer to
    /// [`Nexus::update`].
    Reload { fallback_to_local: bool },
    /// Send the notification to each of the recipients. A delivery that
    /// fails is dropped; the others go on.
    Deliver { notification: Notification, recipients: Vec<u64> },
}

/// What pulling the desired configuration gave.
#[derive(Debug)]
pub enum Fetched {
    /// The configuration has changed; this is the desired list.
    Changed(Vec<NodeConfig>),
    /// The configuration is as it was at the last pull.
    Unchanged,
    /// The source could not be reached or read.
    Failed,
}

/// What both pools did to adapt to a desired list.
#[derive(Debug)]
pub struct Reconciliation {
    pub kaspa: Changes,
    pub sparkle: Changes,
    /// The entries that no pool took.
    pub dangling: Vec<NodeConfig>,
}

/// What came of an update of the configuration.
#[derive(Debug)]
pub enum Updated {
    /// The pools have adapted to the list that was pulled.
    Applied(Reconciliation),
    /// There was nothing to adapt to.
    Unchanged,
    /// The source failed: the local configuration is to be loaded and handed
    /// to [`Nexus::update_nodes`].
    LoadLocal,
}

/// Whether `notes` replays the capabilities listed in `known`, one
/// notification for each, in their order.
pub open spec fn replays(notes: Seq<Notification>, known: Seq<(u64, Caps)>) -> bool {
    &&& notes.len() == known.len()
    &&& forall|i: int|
        0 <= i < notes.len() ==> #[trigger] notes[i] == (Notification::Update {
            update: Update::Caps { uid: known[i].0, caps: known[i].1 },
        })
}

/// Whether the pools of `after` are those of `before` adapted to `list`, and
/// `done` says what each pool did: every pool has taken the entries of its
/// service; the registries are as they were.
pub open spec fn adapted(
    before: Nexus,
    after: Nexus,
    list: Seq<NodeConfig>,
    done: Reconciliation,
) -> bool {
    let verbose = before.options().verbose;
    &&& pool_adapted(before.kaspa(), after.kaspa(), list, verbose, done.kaspa)
    &&& pool_adapted(before.sparkle(), after.sparkle(), list, verbose, done.sparkle)
    &&& done.dangling@ == list.filter(of_other_service(ServiceKind::Kaspa)).filter(
        of_other_service(ServiceKind::Sparkle),
    )
}

/// Whether the pool `after` is the pool `before` adapted to `list`, and
/// `changes` says what it did.
pub open spec fn pool_adapted(
    before: Monitor,
    after: Monitor,
    list: Seq<NodeConfig>,
    verbose: bool,
    changes: Changes,
) -> bool {
    &&& after.registry() == before.registry()
    &&& after.live() == reconciled(before.live(), list, before.kind(), verbose)
    &&& changes.created@ == created(before.live(), list, before.kind(), verbose)
    &&& changes.failed@ == refused(before.live(), list, before.kind(), verbose)
    &&& changes.removed@.no_duplicates()
    &&& changes.removed@.to_set() == before.live().dom().difference(after.live().dom())
}

/// The hub: one pool of connections for each service, and the subscribers
/// that are told of what the connections learn.
pub struct Nexus {
    args: Args,
    kaspa: Monitor,
    sparkle: Monitor,
    contexts: AHashSet<u64>,
}

impl Nexus {
    /// The identifiers of the registered subscribers.
    pub closed spec fn subscribers(&self) -> Set<u64> {
        subscribers_in(self.contexts)
    }

    /// The options the hub was made with.
    pub closed spec fn options(&self) -> Args {
        self.args
    }

    /// The pool of the service `service`.
    pub closed spec fn pool(&self, service: ServiceKind) -> Monitor {
        match service {
            ServiceKind::Kaspa => self.kaspa,
            ServiceKind::Sparkle => self.sparkle,
        }
    }

    /// The pool of the Kaspa nodes.
    pub open spec fn kaspa(&self) -> Monitor {
        self.pool(ServiceKind::Kaspa)
    }

    /// The pool of the Sparkle nodes.
    pub open spec fn sparkle(&self) -> Monitor {
        self.pool(ServiceKind::Sparkle)
    }

    /// Both pools are well formed, each takes the endpoints of its own
    /// service, and both run with the hub's options.
    pub open spec fn wf(&self) -> bool {
        &&& self.kaspa().wf()
        &&& self.sparkle().wf()
        &&& self.kaspa().kind() == ServiceKind::Kaspa
        &&& self.sparkle().kind() == ServiceKind::Sparkle
        &&& self.kaspa().options() == self.options()
        &&& self.sparkle().options() == self.options()
    }

    /// Makes a hub without connections and without subscribers.
    pub fn try_new(args: &Args) -> (made: Result<Nexus, Error>)
        ensures
            made.is_ok(),
            made.unwrap().wf(),
            made.unwrap().options() == *args,
            made.unwrap().subscribers() == Set::<u64>::empty(),
            made.unwrap().kaspa().live() == Map::<u64, Connection>::empty(),
            made.unwrap().sparkle().live() == Map::<u64, Connection>::empty(),
            made.unwrap().kaspa().registry() == Map::<(u64, u64), u64>::empty(),
            made.unwrap().sparkle().registry() == Map::<(u64, u64), u64>::empty(),
    {
        Ok(
            Nexus {
                args: *args,
                kaspa: Monitor::new(args, ServiceKind::Kaspa),
                sparkle: Monitor::new(args, ServiceKind::Sparkle),
                contexts: new_subscribers(),
            },
        )
    }

    /// The pool of the service `service`.
    pub fn monitor(&self, service: ServiceKind) -> (pool: &Monitor)
        ensures
            *pool == self.pool(service),
    {
        match service {
            ServiceKind::Kaspa => &self.kaspa,
            ServiceKind::Sparkle => &self.sparkle,
        }
    }

    /// The pool of the service `service`, to hand it what its connections
    /// meet. The other pool and the subscribers stay as they are.
    pub fn monitor_mut(&mut self, service: ServiceKind) -> (pool: &mut Monitor)
        ensures
            *pool == old(self).pool(service),
            final(self).pool(service) == *final(pool),
            forall|other: ServiceKind|
                other != service ==> final(self).pool(other) == old(self).pool(other),
            final(self).subscribers() == old(self).subscribers(),
            final(self).options() == old(self).options(),
    {
        match service {
            ServiceKind::Kaspa => &mut self.kaspa,
            ServiceKind::Sparkle => &mut self.sparkle,
        }
    }

    pub fn args(&self) -> (args: &Args)
        ensures
            *args == self.options(),
    {
        &self.args
    }

    /// Says what is to be done about an event. A start or the update timer
    /// asks for the configuration to be pulled, with the local copy to fall
    /// back on. What a connection learnt goes out as a notification to every
    /// subscriber registered at this moment, each once.
    pub fn handle_event(&self, event: Event) -> (action: Action)
        ensures
            match event {
                Event::Start => action == Action::Reload { fallback_to_local: true },
                Event::Update => action == Action::Reload { fallback_to_local: true },
                Event::Status { status } => {
                    &&& action is Deliver
                    &&& action->notification == (Notification::Update {
                        update: Update::Status { status },
                    })
                    &&& action->recipients@.no_duplicates()
                    &&& action->recipients@.to_set() == self.subscribers()
                },
                Event::Caps { uid, caps } => {
                    &&& action is Deliver
                    &&& action->notification == (Notification::Update {
                        update: Update::Caps { uid, caps },
                    })
                    &&& action->recipients@.no_duplicates()
                    &&& action->recipients@.to_set() == self.subscribers()
                },
            },
    {
        match event {
            Event::Start => Action::Reload { fallback_to_local: true },
            Event::Update => Action::Reload { fallback_to_local: true },
            Event::Status { status } => Action::Deliver {
                notification: Notification::Update { update: Update::Status { status } },
                recipients: self.contexts(),
            },
            Event::Caps { uid, caps } => Action::Deliver {
                notification: Notification::Update { update: Update::Caps { uid, caps } },
                recipients: self.contexts(),
            },
        }
    }

    /// Hands a desired list to the pools, one after the other; each takes
    /// the entries of its service out of the list. What is left is reported
    /// as dangling.
    pub fn update_nodes(&mut self, global_node_list: Vec<NodeConfig>) -> (done: Reconciliation)
        requires
            old(self).wf(),
        ensures
            final(self).wf(),
            final(self).options() == old(self).options(),
            final(self).subscribers() == old(self).subscribers(),
            adapted(*old(self), *final(self), global_node_list@, done),
    {
        proof {
            lemma_other_services_ignored(
                self.sparkle.live(),
                global_node_list@,
                ServiceKind::Kaspa,
                ServiceKind::Sparkle,
                self.args.verbose,
            );
        }
        let mut global_node_list = global_node_list;
        let kaspa = self.kaspa.update_nodes(&mut global_node_list);
        let sparkle = self.sparkle.update_nodes(&mut global_node_list);
        Reconciliation { kaspa, sparkle, dangling: global_node_list }
    }

    /// Acts on what pulling the desired configuration gave. A list that has
    /// changed is handed to the pools. Where the source failed, the local
    /// configuration is asked for, and the pools stay as they are until it
    /// is handed in. That is so whether or not `fallback_to_local` is set: a
    /// failed fetch never leaves the pools on a list that could not be
    /// confirmed.
    pub fn update(&mut self, fetched: Fetched, fallback_to_local: bool) -> (updated: Updated)
        requires
            old(self).wf(),
        ensures
            final(self).wf(),
            final(self).options() == old(self).options(),
            final(self).subscribers() == old(self).subscribers(),
            final(self).kaspa().registry() == old(self).kaspa().registry(),
            final(self).sparkle().registry() == old(self).sparkle().registry(),
            match fetched {
                Fetched::Changed(list) => {
                    &&& updated is Applied
                    &&& adapted(*old(self), *final(self), list@, updated->Applied_0)
                },
                Fetched::Unchanged => {
                    &&& updated is Unchanged
                    &&& final(self).kaspa().live() == old(self).kaspa().live()
                    &&& final(self).sparkle().live() == old(self).sparkle().live()
                },
                Fetched::Failed => {
                    &&& updated is LoadLocal
                    &&& final(self).kaspa().live() == old(self).kaspa().live()
                    &&& final(self).sparkle().live() == old(self).sparkle().live()
                },
            },
    {
        let _ = fallback_to_local;
        match fetched {
            Fetched::Changed(list) => Updated::Applied(self.update_nodes(list)),
            Fetched::Unchanged => Updated::Unchanged,
            Fetched::Failed => Updated::LoadLocal,
        }
    }

    /// The connections of both pools, those of the first pool first.
    pub fn connections(&self) -> (list: Vec<Connection>)
        requires
            self.wf(),
        ensures
            exists|split: int|
                0 <= split <= list@.len() && lists_all(
                    #[trigger] list@.take(split),
                    self.kaspa().live(),
                ) && lists_all(list@.skip(split), self.sparkle().live()),
    {
        let mut list = self.kaspa.to_vec();
        let mut sparkle = self.sparkle.to_vec();
        let ghost first = list@;
        let ghost second = sparkle@;
        list.append(&mut sparkle);
        proof {
            assert(list@.take(first.len() as int) =~= first);
            assert(list@.skip(first.len() as int) =~= second);
        }
        list
    }

    /// Registers a subscriber and returns what it has to be sent at once:
    /// the capabilities of every node whose capabilities are known, one
    /// notification for each connection that knows them, so that a late
    /// subscriber misses none.
    pub fn register_context(&mut self, id: u64) -> (replay: Vec<Notification>)
        requires
            old(self).wf(),
        ensures
            final(self).wf(),
            final(self).options() == old(self).options(),
            final(self).kaspa() == old(self).kaspa(),
            final(self).sparkle() == old(self).sparkle(),
            final(self).subscribers() == old(self).subscribers().insert(id),
            replay@.len() == bearing(old(self).kaspa().live()).len() + bearing(
                old(self).sparkle().live(),
            ).len(),
            exists|known: Seq<(u64, Caps)>, split: int|
                0 <= split <= known.len() && lists_caps(
                    #[trigger] known.take(split),
                    old(self).kaspa().live(),
                ) && lists_caps(known.skip(split), old(self).sparkle().live()) && replays(
                    replay@,
                    known,
                ),
    {
        let mut known = self.kaspa.known_caps();
        let mut sparkle = self.sparkle.known_caps();
        let ghost first = known@;
        let ghost second = sparkle@;
        known.append(&mut sparkle);
        proof {
            assert(known@.take(first.len() as int) =~= first);
            assert(known@.skip(first.len() as int) =~= second);
        }
        let ghost listed = known@;
        let mut replay: Vec<Notification> = Vec::new();
        let mut at: usize = 0;
        while at < known.len()
            invariant
                at <= known@.len(),
                known@ == listed,
                replay@.len() == at,
                forall|i: int|
                    0 <= i < at ==> #[trigger] replay@[i] == (Notification::Update {
                        update: Update::Caps { uid: listed[i].0, caps: listed[i].1 },
                    }),
            decreases known@.len() - at,
        {
            let uid = known[at].0;
            let caps = known[at].1.clone();
            replay.push(Notification::Update { update: Update::Caps { uid, caps } });
            at += 1;
        }
        insert_subscriber(&mut self.contexts, id);
        proof {
            assert(replays(replay@, listed));
            assert(lists_caps(listed.take(first.len() as int), old(self).kaspa().live()));
        }
        replay
    }

    /// Takes a subscriber out of the registry; nothing is sent to it from
    /// now on.
    pub fn unregister_context(&mut self, id: u64)
        ensures
            final(self).options() == old(self).options(),
            final(self).kaspa() == old(self).kaspa(),
            final(self).sparkle() == old(self).sparkle(),
            final(self).subscribers() == old(self).subscribers().remove(id),
    {
        remove_subscriber(&mut self.contexts, id);
    }

    /// The identifiers of the registered subscribers, each once, in no
    /// particular order.
    pub fn contexts(&self) -> (ids: Vec<u64>)
        ensures
            ids@.no_duplicates(),
            ids@.to_set() == self.subscribers(),
    {
        subscriber_ids(&self.contexts)
    }

    /// Shuts the hub down: both pools are shut down, the second pool first.
    /// The result names, for each pool, the endpoints whose polling loops
    /// are to be stopped.
    pub fn stop(&mut self) -> (stopped: (Vec<u64>, Vec<u64>))
        requires
            old(self).wf(),
        ensures
            final(self).wf(),
            final(self).options() == old(self).options(),
            final(self).subscribers() == old(self).subscribers(),
            final(self).kaspa().live() == Map::<u64, Connection>::empty(),
            final(self).sparkle().live() == Map::<u64, Connection>::empty(),
            stopped.0@.no_duplicates(),
            stopped.0@.to_set() == old(self).kaspa().live().dom(),
            stopped.1@.no_duplicates(),
            stopped.1@.to_set() == old(self).sparkle().live().dom(),
    {
        let sparkle = self.sparkle.stop();
        let kaspa = self.kaspa.stop();
        (kaspa, sparkle)
    }

    /// Answers a ping.
    pub fn ping_call(&self, _request: PingRequest) -> (response: Result<PingResponse, Error>)
        ensures
            response == Ok::<PingResponse, Error>(PingResponse {  }),
    {
        Ok(PingResponse {  })
    }

    /// Answers a request for the hub's status with the version of the
    /// software, which the caller passes in.
    pub fn get_status_call(&self, _request: GetStatusRequest, version: &str) -> (response: Result<
        GetStatusResponse,
        Error,
    >)
        ensures
            response.is_ok(),
            response.unwrap().kaspa_monitor_version@ == version@,
    {
        Ok(GetStatusResponse { kaspa_monitor_version: String::from_str(version) })
    }
}

} // verus!
