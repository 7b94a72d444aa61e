use crate::connection::Connection;
use crate::node::NodeConfig;
use crate::reconcile::{
    is_group_primary, leads, lemma_group_primary_is, lemma_reconciled_well_filed, rebound_one,
    reconciled, released, restructured, well_filed,
};
use crate::services::ServiceKind;
use vstd::prelude::*;

verus! {

/// The primary that a chain of delegations ends in, starting at `uid` and
/// following at most `hops` links; `None` where the chain leaves the live
/// connections or does not end within `hops` links.
pub open spec fn chain_end(live: Map<u64, Connection>, uid: u64, hops: nat) -> Option<u64>
    decreases hops,
{
    if !live.dom().contains(uid) {
        None
    } else {
        match live[uid].delegate {
            None => Some(uid),
            Some(next) => if hops == 0 {
                None
            } else {
                chain_end(live, next, (hops - 1) as nat)
            },
        }
    }
}

/// The live connections that a chain of delegations passes, starting with
/// the connection that `link` names and following at most `hops` links.
pub open spec fn chain(live: Map<u64, Connection>, link: Option<u64>, hops: nat) -> Seq<u64>
    decreases hops,
{
    match link {
        Some(next) => if hops > 0 && live.dom().contains(next) {
            seq![next] + chain(live, live[next].delegate, (hops - 1) as nat)
        } else {
            Seq::empty()
        },
        None => Seq::empty(),
    }
}

/// Whether `holder` names a primary that the connection `uid` can defer to:
/// another connection, live and deferring to none.
pub open spec fn can_defer_to(live: Map<u64, Connection>, holder: Option<u64>, uid: u64) -> bool {
    &&& holder.is_some()
    &&& holder.unwrap() != uid
    &&& live.dom().contains(holder.unwrap())
    &&& live[holder.unwrap()].delegate.is_none()
}

/// Whether the chain of delegations from `from`, followed for `hops` links
/// at most, comes to the connection `target`.
pub open spec fn passes(live: Map<u64, Connection>, from: u64, hops: nat, target: u64) -> bool
    decreases hops,
{
    if from == target {
        true
    } else if !live.dom().contains(from) {
        false
    } else {
        match live[from].delegate {
            None => false,
            Some(next) => hops > 0 && passes(live, next, (hops - 1) as nat, target),
        }
    }
}

/// A chain that ends within some number of links ends in the same primary
/// within any greater number.
pub proof fn lemma_chain_end_monotone(live: Map<u64, Connection>, uid: u64, hops: nat, more: nat)
    requires
        chain_end(live, uid, hops).is_some(),
        hops <= more,
    ensures
        chain_end(live, uid, more) == chain_end(live, uid, hops),
    decreases hops,
{
    if live[uid].delegate.is_some() {
        lemma_chain_end_monotone(
            live,
            live[uid].delegate.unwrap(),
            (hops - 1) as nat,
            (more - 1) as nat,
        );
    }
}

proof fn lemma_chain_avoids(live: Map<u64, Connection>, from: u64, hops: nat, target: u64)
    requires
        !passes(live, from, hops, target),
    ensures
        chain_end(live.remove(target), from, hops) == chain_end(live, from, hops),
    decreases hops,
{
    if live.dom().contains(from) && live[from].delegate.is_some() && hops > 0 {
        lemma_chain_avoids(live, live[from].delegate.unwrap(), (hops - 1) as nat, target);
    }
}

proof fn lemma_chain_through(live: Map<u64, Connection>, from: u64, hops: nat, target: u64) -> (rest:
    nat)
    requires
        passes(live, from, hops, target),
        chain_end(live, from, hops).is_some(),
    ensures
        rest <= hops,
        chain_end(live, target, rest) == chain_end(live, from, hops),
    decreases hops,
{
    if from == target {
        hops
    } else {
        lemma_chain_through(live, live[from].delegate.unwrap(), (hops - 1) as nat, target)
    }
}

proof fn lemma_chain_lifts(live: Map<u64, Connection>, from: u64, hops: nat, gone: u64)
    requires
        chain_end(live.remove(gone), from, hops).is_some(),
    ensures
        chain_end(live, from, hops) == chain_end(live.remove(gone), from, hops),
    decreases hops,
{
    let less = live.remove(gone);
    if less[from].delegate.is_some() {
        lemma_chain_lifts(live, less[from].delegate.unwrap(), (hops - 1) as nat, gone);
    }
}

/// The guard on the number of links does not cut short any chain that ends:
/// a chain that comes to a primary after any number of links comes to it
/// within as many links as there are live connections.
pub proof fn lemma_chain_guard_suffices(live: Map<u64, Connection>, uid: u64, hops: nat)
    requires
        live.dom().finite(),
        chain_end(live, uid, hops).is_some(),
    ensures
        chain_end(live, uid, live.dom().len()) == chain_end(live, uid, hops),
    decreases hops,
{
    let guard = live.dom().len();
    if live[uid].delegate.is_some() {
        let next = live[uid].delegate.unwrap();
        assert(guard > 0) by {
            if guard == 0 {
                live.dom().lemma_len0_is_empty();
            }
        }
        if passes(live, next, (hops - 1) as nat, uid) {
            let rest = lemma_chain_through(live, next, (hops - 1) as nat, uid);
            lemma_chain_guard_suffices(live, uid, rest);
        } else {
            let less = live.remove(uid);
            lemma_chain_avoids(live, next, (hops - 1) as nat, uid);
            lemma_chain_guard_suffices(less, next, (hops - 1) as nat);
            assert(less.dom() =~= live.dom().remove(uid));
            assert(less.dom().len() == guard - 1);
            lemma_chain_lifts(live, next, (guard - 1) as nat, uid);
        }
    }
}

/// Along a delegation the primary is handed on: a connection that defers to
/// another resolves to whatever the other resolves to, however long the
/// chain beyond it is.
pub proof fn lemma_chain_end_follows(live: Map<u64, Connection>, uid: u64, hops: nat)
    requires
        live.dom().finite(),
        live.dom().contains(uid),
        live[uid].delegate.is_some(),
        chain_end(live, live[uid].delegate.unwrap(), hops).is_some(),
    ensures
        chain_end(live, uid, live.dom().len()) == chain_end(
            live,
            live[uid].delegate.unwrap(),
            hops,
        ),
{
    assert(chain_end(live, uid, hops + 1) == chain_end(live, live[uid].delegate.unwrap(), hops));
    lemma_chain_guard_suffices(live, uid, hops + 1);
}

/// After a pool has adapted to a list, consider a physical node that has one
/// connection of the preferred variant, which defers to none. That
/// connection is then the node's one primary: every other connection to the
/// node defers, and every connection to the node resolves to it.
pub proof fn lemma_group_dedup(
    live: Map<u64, Connection>,
    list: Seq<NodeConfig>,
    service: ServiceKind,
    verbose: bool,
    group: u64,
    primary: u64,
    uid: u64,
)
    requires
        well_filed(live),
        ({
            let now = reconciled(live, list, service, verbose);
            &&& leads(now, group, primary)
            &&& forall|other: u64| leads(now, group, other) ==> other == primary
            &&& now[primary].delegate.is_none()
            &&& now.dom().contains(uid)
            &&& now[uid].node.network_node_uid == group
        }),
    ensures
        ({
            let now = reconciled(live, list, service, verbose);
            &&& now[uid].is_primary() <==> uid == primary
            &&& chain_end(now, uid, now.dom().len()) == Some(primary)
        }),
{
    let now = reconciled(live, list, service, verbose);
    let freed = released(restructured(live, list, service, verbose));
    lemma_reconciled_well_filed(live, list, service, verbose);
    assert(now.dom() =~= freed.dom());
    assert forall|other: u64| leads(freed, group, other) <==> leads(now, group, other) by {}
    assert(is_group_primary(freed, group, primary));
    lemma_group_primary_is(freed, group, primary);
    assert(now.dom().len() > 0) by {
        if now.dom().len() == 0 {
            now.dom().lemma_len0_is_empty();
        }
    }
    assert(chain_end(now, primary, (now.dom().len() - 1) as nat) == Some(primary));
    if uid != primary {
        assert(!leads(now, group, uid));
        assert(now[uid] == rebound_one(freed, freed[uid]));
        assert(now[uid].delegate == Some(primary));
    }
}

} // verus!
