use crate::connection::{fresh_connection, Connection};
use crate::error::Error;
use crate::node::NodeConfig;
use crate::services::ServiceKind;
use crate::transport::TransportKind;
use vstd::prelude::*;

verus! {

/// Whether a connection can be made for the endpoint: a client exists for
/// its transport.
pub open spec fn constructible(node: NodeConfig) -> bool {
    node.transport_kind != TransportKind::Grpc
}

/// The test for an entry that belongs to another service than `service`.
pub open spec fn of_other_service(service: ServiceKind) -> spec_fn(NodeConfig) -> bool {
    |node: NodeConfig| node.service != service
}

/// Whether the entry calls for a connection that has to be made: it belongs
/// to the service, and no connection of its endpoint is live or was made for
/// an earlier entry.
pub open spec fn is_new(
    live: Map<u64, Connection>,
    prior: Map<u64, Connection>,
    node: NodeConfig,
    service: ServiceKind,
) -> bool {
    node.service == service && !prior.dom().contains(node.uid) && !live.dom().contains(node.uid)
}

/// The connections after the desired list was gone through in order, before
/// any delegation is touched. An entry of another service is passed over. A
/// live connection whose endpoint is listed stays as it is. For a listed
/// endpoint without one a connection is made, where that can be done. A live
/// connection whose endpoint is not listed is gone.
pub open spec fn restructured(
    live: Map<u64, Connection>,
    list: Seq<NodeConfig>,
    service: ServiceKind,
    verbose: bool,
) -> Map<u64, Connection>
    decreases list.len(),
{
    if list.len() == 0 {
        Map::empty()
    } else {
        let prior = restructured(live, list.drop_last(), service, verbose);
        let node = list.last();
        if node.service != service || prior.dom().contains(node.uid) {
            prior
        } else if live.dom().contains(node.uid) {
            prior.insert(node.uid, live[node.uid])
        } else if constructible(node) {
            prior.insert(node.uid, fresh_connection(verbose, node))
        } else {
            prior
        }
    }
}

/// The endpoints that connections were made for, in the order of the list.
pub open spec fn created(
    live: Map<u64, Connection>,
    list: Seq<NodeConfig>,
    service: ServiceKind,
    verbose: bool,
) -> Seq<u64>
    decreases list.len(),
{
    if list.len() == 0 {
        Seq::empty()
    } else {
        let prior = restructured(live, list.drop_last(), service, verbose);
        let rest = created(live, list.drop_last(), service, verbose);
        let node = list.last();
        if is_new(live, prior, node, service) && constructible(node) {
            rest.push(node.uid)
        } else {
            rest
        }
    }
}

/// The endpoints that no connection could be made for, each with the reason,
/// in the order of the list.
pub open spec fn refused(
    live: Map<u64, Connection>,
    list: Seq<NodeConfig>,
    service: ServiceKind,
    verbose: bool,
) -> Seq<(u64, Error)>
    decreases list.len(),
{
    if list.len() == 0 {
        Seq::empty()
    } else {
        let prior = restructured(live, list.drop_last(), service, verbose);
        let rest = refused(live, list.drop_last(), service, verbose);
        let node = list.last();
        if is_new(live, prior, node, service) && !constructible(node) {
            rest.push((node.uid, Error::UnsupportedTransport(node.transport_kind)))
        } else {
            rest
        }
    }
}

/// A connection whose delegation points at an endpoint that is not live any
/// more defers to none from now on, and what it knew of the node's
/// capabilities is dropped, so that its next health check finds out anew
/// which connection is the node's primary.
pub open spec fn released_one(among: Map<u64, Connection>, connection: Connection) -> Connection {
    if connection.delegate.is_some() && !among.dom().contains(connection.delegate.unwrap()) {
        Connection { delegate: None, caps: None, ..connection }
    } else {
        connection
    }
}

/// The connections once every delegation to an endpoint that is gone was
/// dropped.
pub open spec fn released(among: Map<u64, Connection>) -> Map<u64, Connection> {
    Map::new(|uid: u64| among.dom().contains(uid), |uid: u64| released_one(among, among[uid]))
}

/// Whether the endpoint `uid` has a live connection of the preferred
/// transport variant to the physical node `group`.
pub open spec fn leads(among: Map<u64, Connection>, group: u64, uid: u64) -> bool {
    &&& among.dom().contains(uid)
    &&& among[uid].node.transport_kind == TransportKind::WrpcBorsh
    &&& among[uid].node.network_node_uid == group
}

/// Whether `uid` is the preferred primary of the physical node `group`: of
/// the connections of the preferred variant, the one with the least endpoint
/// identifier.
pub open spec fn is_group_primary(among: Map<u64, Connection>, group: u64, uid: u64) -> bool {
    &&& leads(among, group, uid)
    &&& forall|other: u64| leads(among, group, other) ==> uid <= other
}

/// The preferred primary of the physical node `group`, if the node has a
/// connection of the preferred variant.
pub open spec fn group_primary(among: Map<u64, Connection>, group: u64) -> Option<u64> {
    if exists|uid: u64| is_group_primary(among, group, uid) {
        Some(choose|uid: u64| is_group_primary(among, group, uid))
    } else {
        None
    }
}

/// A connection of another variant than the preferred one defers to the
/// preferred primary of its physical node, where there is one.
pub open spec fn rebound_one(among: Map<u64, Connection>, connection: Connection) -> Connection {
    match group_primary(among, connection.node.network_node_uid) {
        Some(primary) => if connection.node.transport_kind != TransportKind::WrpcBorsh {
            Connection { delegate: Some(primary), ..connection }
        } else {
            connection
        },
        None => connection,
    }
}

/// The connections once the transport variants of each physical node were
/// bound to the node's preferred primary.
pub open spec fn rebound(among: Map<u64, Connection>) -> Map<u64, Connection> {
    Map::new(|uid: u64| among.dom().contains(uid), |uid: u64| rebound_one(among, among[uid]))
}

/// The live connections of a pool after it has adapted to a desired list.
pub open spec fn reconciled(
    live: Map<u64, Connection>,
    list: Seq<NodeConfig>,
    service: ServiceKind,
    verbose: bool,
) -> Map<u64, Connection> {
    rebound(released(restructured(live, list, service, verbose)))
}

/// There are finitely many connections, and every one is well formed and
/// filed under the identifier of its own endpoint.
pub open spec fn well_filed(among: Map<u64, Connection>) -> bool {
    &&& among.dom().finite()
    &&& forall|uid: u64| #[trigger]
        among.dom().contains(uid) ==> among[uid].node.uid == uid && among[uid].wf()
}

/// A physical node has one preferred primary at most.
pub proof fn lemma_group_primary_is(among: Map<u64, Connection>, group: u64, uid: u64)
    requires
        is_group_primary(among, group, uid),
    ensures
        group_primary(among, group) == Some(uid),
{
    let chosen = choose|uid: u64| is_group_primary(among, group, uid);
    assert(is_group_primary(among, group, chosen));
    assert(leads(among, group, chosen));
    assert(leads(among, group, uid));
}

/// A physical node without a connection of the preferred variant has no
/// preferred primary.
pub proof fn lemma_group_primary_none(among: Map<u64, Connection>, group: u64)
    requires
        forall|uid: u64| !leads(among, group, uid),
    ensures
        group_primary(among, group).is_none(),
{
}

/// Whether the list has an entry of the service for the endpoint `uid`.
pub open spec fn listed(list: Seq<NodeConfig>, service: ServiceKind, uid: u64) -> bool {
    exists|i: int| 0 <= i < list.len() && #[trigger] list[i].service == service && list[i].uid == uid
}

/// Whether the list has an entry of the service for the endpoint `uid` that
/// leads to a connection: one is live already, or one can be made.
pub open spec fn admitted(
    live: Map<u64, Connection>,
    list: Seq<NodeConfig>,
    service: ServiceKind,
    uid: u64,
) -> bool {
    exists|i: int|
        0 <= i < list.len() && #[trigger] list[i].service == service && list[i].uid == uid && (
        live.dom().contains(uid) || constructible(list[i]))
}

/// Whether a connection can be made for every entry of the service.
pub open spec fn all_constructible(list: Seq<NodeConfig>, service: ServiceKind) -> bool {
    forall|i: int| 0 <= i < list.len() && #[trigger] list[i].service == service ==> constructible(list[i])
}

proof fn lemma_admitted_step(
    live: Map<u64, Connection>,
    list: Seq<NodeConfig>,
    service: ServiceKind,
    uid: u64,
)
    requires
        list.len() > 0,
    ensures
        admitted(live, list, service, uid) <==> admitted(live, list.drop_last(), service, uid) || (
        list.last().service == service && list.last().uid == uid && (live.dom().contains(uid)
            || constructible(list.last()))),
        listed(list, service, uid) <==> listed(list.drop_last(), service, uid) || (
        list.last().service == service && list.last().uid == uid),
{
    let front = list.drop_last();
    let end = list.len() - 1;
    if admitted(live, front, service, uid) {
        let i = choose|i: int|
            0 <= i < front.len() && #[trigger] front[i].service == service && front[i].uid == uid
                && (live.dom().contains(uid) || constructible(front[i]));
        assert(list[i] == front[i]);
        assert(list[i].service == service);
    }
    if admitted(live, list, service, uid) {
        let i = choose|i: int|
            0 <= i < list.len() && #[trigger] list[i].service == service && list[i].uid == uid && (
            live.dom().contains(uid) || constructible(list[i]));
        if i < end {
            assert(front[i] == list[i]);
            assert(front[i].service == service);
        }
    }
    if listed(front, service, uid) {
        let i = choose|i: int|
            0 <= i < front.len() && #[trigger] front[i].service == service && front[i].uid == uid;
        assert(list[i] == front[i]);
        assert(list[i].service == service);
    }
    if listed(list, service, uid) {
        let i = choose|i: int|
            0 <= i < list.len() && #[trigger] list[i].service == service && list[i].uid == uid;
        if i < end {
            assert(front[i] == list[i]);
            assert(front[i].service == service);
        }
    }
    if list.last().service == service && list.last().uid == uid {
        assert(list[end].service == service);
    }
}

/// An endpoint has a connection after the list was gone through exactly if
/// the list has an entry of the service for it that leads to one.
pub proof fn lemma_restructured_dom(
    live: Map<u64, Connection>,
    list: Seq<NodeConfig>,
    service: ServiceKind,
    verbose: bool,
)
    ensures
        forall|uid: u64| #[trigger]
            restructured(live, list, service, verbose).dom().contains(uid) <==> admitted(
                live,
                list,
                service,
                uid,
            ),
        restructured(live, list, service, verbose).dom().finite(),
    decreases list.len(),
{
    if list.len() > 0 {
        lemma_restructured_dom(live, list.drop_last(), service, verbose);
        assert forall|uid: u64| #[trigger]
            restructured(live, list, service, verbose).dom().contains(uid) <==> admitted(
                live,
                list,
                service,
                uid,
            ) by {
            lemma_admitted_step(live, list, service, uid);
        }
    }
}

/// A connection that was live and is still there after the list was gone
/// through is as it was; one that was made is fresh and belongs to an entry
/// of the list. Either way it is filed under its endpoint's identifier if the
/// live ones were.
pub proof fn lemma_restructured_values(
    live: Map<u64, Connection>,
    list: Seq<NodeConfig>,
    service: ServiceKind,
    verbose: bool,
)
    ensures
        forall|uid: u64| #[trigger]
            restructured(live, list, service, verbose).dom().contains(uid) && live.dom().contains(
                uid,
            ) ==> restructured(live, list, service, verbose)[uid] == live[uid],
        forall|uid: u64| #[trigger]
            restructured(live, list, service, verbose).dom().contains(uid) && !live.dom().contains(
                uid,
            ) ==> restructured(live, list, service, verbose)[uid].node.uid == uid
                && restructured(live, list, service, verbose)[uid].delegate.is_none()
                && restructured(live, list, service, verbose)[uid].wf(),
    decreases list.len(),
{
    if list.len() > 0 {
        lemma_restructured_values(live, list.drop_last(), service, verbose);
    }
}

/// Reconciling keeps the connections filed under their endpoints.
pub proof fn lemma_reconciled_well_filed(
    live: Map<u64, Connection>,
    list: Seq<NodeConfig>,
    service: ServiceKind,
    verbose: bool,
)
    requires
        well_filed(live),
    ensures
        well_filed(reconciled(live, list, service, verbose)),
        reconciled(live, list, service, verbose).dom() == restructured(
            live,
            list,
            service,
            verbose,
        ).dom(),
{
    lemma_restructured_dom(live, list, service, verbose);
    lemma_restructured_values(live, list, service, verbose);
    let kept = restructured(live, list, service, verbose);
    assert(released(kept).dom() =~= kept.dom());
    assert(rebound(released(kept)).dom() =~= kept.dom());
    assert forall|uid: u64| #[trigger] kept.dom().contains(uid) implies kept[uid].node.uid == uid
        && kept[uid].wf() by {
        if live.dom().contains(uid) {
            assert(kept[uid] == live[uid]);
        }
    }
}

/// Where every listed endpoint of the service either has a live connection
/// or cannot have one, going through the list makes no connection, and
/// leaves exactly the live connections whose endpoints are listed.
proof fn lemma_restructured_settled(
    live: Map<u64, Connection>,
    list: Seq<NodeConfig>,
    service: ServiceKind,
    verbose: bool,
)
    requires
        forall|i: int|
            0 <= i < list.len() && #[trigger] list[i].service == service ==> live.dom().contains(
                list[i].uid,
            ) || !constructible(list[i]),
    ensures
        created(live, list, service, verbose) == Seq::<u64>::empty(),
        forall|uid: u64| #[trigger]
            restructured(live, list, service, verbose).dom().contains(uid) ==> live.dom().contains(
                uid,
            ) && restructured(live, list, service, verbose)[uid] == live[uid],
        forall|uid: u64|
            listed(list, service, uid) && live.dom().contains(uid) ==> #[trigger] restructured(
                live,
                list,
                service,
                verbose,
            ).dom().contains(uid),
    decreases list.len(),
{
    if list.len() > 0 {
        let front = list.drop_last();
        assert forall|i: int|
            0 <= i < front.len() && #[trigger] front[i].service == service implies live.dom().contains(
            front[i].uid,
        ) || !constructible(front[i]) by {
            assert(front[i] == list[i]);
            assert(list[i].service == service);
        }
        lemma_restructured_settled(live, front, service, verbose);
        let node = list.last();
        let prior = restructured(live, front, service, verbose);
        let now = restructured(live, list, service, verbose);
        if node.service == service {
            assert(list[list.len() - 1].service == service);
            assert(live.dom().contains(node.uid) || !constructible(node));
        }
        assert forall|uid: u64| #[trigger] now.dom().contains(uid) implies live.dom().contains(uid)
            && now[uid] == live[uid] by {
            if prior.dom().contains(uid) {
                assert(prior[uid] == live[uid]);
            }
        }
        assert forall|uid: u64| listed(list, service, uid) && live.dom().contains(
            uid,
        ) implies #[trigger] now.dom().contains(uid) by {
            lemma_admitted_step(live, list, service, uid);
            if listed(front, service, uid) {
                assert(prior.dom().contains(uid));
            }
        }
    }
}

/// If a physical node has a preferred primary, it is a live connection of
/// the preferred variant to that node.
pub proof fn lemma_group_primary_leads(among: Map<u64, Connection>, group: u64)
    requires
        group_primary(among, group).is_some(),
    ensures
        is_group_primary(among, group, group_primary(among, group).unwrap()),
{
}

/// The preferred primaries depend on the endpoints' configurations alone.
proof fn lemma_group_primary_same(a: Map<u64, Connection>, b: Map<u64, Connection>, group: u64)
    requires
        a.dom() == b.dom(),
        forall|uid: u64| #[trigger] a.dom().contains(uid) ==> a[uid].node == b[uid].node,
    ensures
        group_primary(a, group) == group_primary(b, group),
{
    assert forall|uid: u64| leads(a, group, uid) <==> leads(b, group, uid) by {
        if a.dom().contains(uid) {
            assert(a[uid].node == b[uid].node);
        }
    }
    if group_primary(a, group).is_some() {
        let p = group_primary(a, group).unwrap();
        assert(is_group_primary(a, group, p));
        assert(is_group_primary(b, group, p));
        lemma_group_primary_is(b, group, p);
    } else if group_primary(b, group).is_some() {
        let p = group_primary(b, group).unwrap();
        assert(is_group_primary(b, group, p));
        assert(is_group_primary(a, group, p));
        lemma_group_primary_is(a, group, p);
    }
}

/// Reconciling twice with the same list changes nothing the second time:
/// no connection is made, none is removed, and every connection is left as
/// the first pass left it, its delegation included.
pub proof fn lemma_reconcile_idempotent(
    live: Map<u64, Connection>,
    list: Seq<NodeConfig>,
    service: ServiceKind,
    verbose: bool,
)
    ensures
        ({
            let once = reconciled(live, list, service, verbose);
            &&& reconciled(once, list, service, verbose) == once
            &&& created(once, list, service, verbose) == Seq::<u64>::empty()
            &&& once.dom().difference(reconciled(once, list, service, verbose).dom())
                == Set::<u64>::empty()
        }),
{
    let kept = restructured(live, list, service, verbose);
    let freed = released(kept);
    let once = rebound(freed);
    lemma_restructured_dom(live, list, service, verbose);
    assert(freed.dom() =~= kept.dom());
    assert(once.dom() =~= kept.dom());
    // The second pass over the list finds every endpoint settled.
    assert forall|i: int|
        0 <= i < list.len() && #[trigger] list[i].service == service implies once.dom().contains(
        list[i].uid,
    ) || !constructible(list[i]) by {
        if constructible(list[i]) {
            assert(admitted(live, list, service, list[i].uid));
            assert(kept.dom().contains(list[i].uid));
        }
    }
    lemma_restructured_settled(once, list, service, verbose);
    let kept2 = restructured(once, list, service, verbose);
    assert forall|uid: u64| once.dom().contains(uid) implies kept2.dom().contains(uid) by {
        assert(kept.dom().contains(uid));
        assert(admitted(live, list, service, uid));
        let i = choose|i: int|
            0 <= i < list.len() && #[trigger] list[i].service == service && list[i].uid == uid && (
            live.dom().contains(uid) || constructible(list[i]));
        assert(listed(list, service, uid));
    }
    assert(kept2 =~= once);
    // No delegation of the first pass points outside the connections.
    assert forall|uid: u64| #[trigger] once.dom().contains(uid) implies released_one(
        once,
        once[uid],
    ) == once[uid] by {
        let group = freed[uid].node.network_node_uid;
        if group_primary(freed, group).is_some() {
            lemma_group_primary_leads(freed, group);
        }
    }
    assert(released(once) =~= once);
    // The preferred primaries are the same, so every binding stands.
    assert forall|uid: u64| #[trigger] once.dom().contains(uid) implies rebound_one(
        once,
        once[uid],
    ) == once[uid] by {
        lemma_group_primary_same(once, freed, freed[uid].node.network_node_uid);
    }
    assert(rebound(once) =~= once);
    assert(once.dom().difference(once.dom()) =~= Set::<u64>::empty());
}

/// After a pool has adapted to a list in which a connection can be made for
/// every entry of its service, its live connections are exactly those of
/// the endpoints that the list names for the service, whatever list it had
/// adapted to before and whatever connections it had.
pub proof fn lemma_reconcile_converges(
    start: Map<u64, Connection>,
    first: Seq<NodeConfig>,
    second: Seq<NodeConfig>,
    service: ServiceKind,
    verbose: bool,
)
    requires
        all_constructible(second, service),
    ensures
        forall|uid: u64| #[trigger]
            reconciled(
                reconciled(start, first, service, verbose),
                second,
                service,
                verbose,
            ).dom().contains(uid) <==> listed(second, service, uid),
{
    let live = reconciled(start, first, service, verbose);
    let kept = restructured(live, second, service, verbose);
    lemma_restructured_dom(live, second, service, verbose);
    assert(released(kept).dom() =~= kept.dom());
    assert(rebound(released(kept)).dom() =~= kept.dom());
    assert forall|uid: u64| admitted(live, second, service, uid) <==> listed(
        second,
        service,
        uid,
    ) by {
        if listed(second, service, uid) {
            let i = choose|i: int|
                0 <= i < second.len() && #[trigger] second[i].service == service && second[i].uid
                    == uid;
            assert(constructible(second[i]));
        }
        if admitted(live, second, service, uid) {
            let i = choose|i: int|
                0 <= i < second.len() && #[trigger] second[i].service == service && second[i].uid
                    == uid && (live.dom().contains(uid) || constructible(second[i]));
            assert(second[i].service == service && second[i].uid == uid);
        }
    }
}

/// A pool passes over the entries of other services: it adapts to a list
/// from which the entries of another service were taken out as it adapts to
/// the whole list.
pub proof fn lemma_other_services_ignored(
    live: Map<u64, Connection>,
    list: Seq<NodeConfig>,
    other: ServiceKind,
    service: ServiceKind,
    verbose: bool,
)
    requires
        other != service,
    ensures
        restructured(live, list.filter(of_other_service(other)), service, verbose) == restructured(
            live,
            list,
            service,
            verbose,
        ),
        created(live, list.filter(of_other_service(other)), service, verbose) == created(
            live,
            list,
            service,
            verbose,
        ),
        refused(live, list.filter(of_other_service(other)), service, verbose) == refused(
            live,
            list,
            service,
            verbose,
        ),
        reconciled(live, list.filter(of_other_service(other)), service, verbose) == reconciled(
            live,
            list,
            service,
            verbose,
        ),
    decreases list.len(),
{
    let keep = of_other_service(other);
    if list.len() == 0 {
        assert(list.filter(keep) =~= list);
    } else {
        let front = list.drop_last();
        let last = list.last();
        lemma_other_services_ignored(live, front, other, service, verbose);
        assert(list =~= front.push(last));
        front.lemma_filter_push(last, keep);
        if keep(last) {
            assert(list.filter(keep).drop_last() =~= front.filter(keep));
            assert(list.filter(keep).last() == last);
        }
    }
}

} // verus!
