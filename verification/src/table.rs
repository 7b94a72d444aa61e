use crate::connection::Connection;
use crate::machine::{Machine, Node};
use ahash::{AHashMap, AHashSet};
use vstd::prelude::*;

verus! {

/// `ahash::AHashMap`, a hash map. Nothing is known of a value of it but what
/// the functions of this file say.
#[verifier::external_type_specification]
#[verifier::external_body]
#[verifier::reject_recursive_types(K)]
#[verifier::reject_recursive_types(V)]
#[verifier::reject_recursive_types(S)]
pub struct ExAHashMap<K, V, S>(AHashMap<K, V, S>);

/// `ahash::AHashSet`, a hash set. Nothing is known of a value of it but what
/// the functions of this file say.
#[verifier::external_type_specification]
#[verifier::external_body]
#[verifier::reject_recursive_types(T)]
#[verifier::reject_recursive_types(S)]
pub struct ExAHashSet<T, S>(AHashSet<T, S>);

/// `ahash::RandomState`, the hasher that the maps and sets are made with.
#[verifier::external_type_specification]
#[verifier::external_body]
pub struct ExRandomState(ahash::RandomState);

/// The connections a table holds, by the identifier of their endpoint.
pub uninterp spec fn connections_in(table: AHashMap<u64, Connection>) -> Map<u64, Connection>;

/// Calls `AHashMap::new`, which makes an empty map.
#[verifier::external_body]
pub(crate) fn new_connections() -> (table: AHashMap<u64, Connection>)
    ensures
        connections_in(table).dom() == Set::<u64>::empty(),
{
    AHashMap::new()
}

/// Calls `AHashMap::get`, which returns the value filed under the key, if
/// there is one.
#[verifier::external_body]
pub(crate) fn get_connection(table: &AHashMap<u64, Connection>, uid: u64) -> (found: Option<
    &Connection,
>)
    ensures
        found == if connections_in(*table).dom().contains(uid) {
            Some(&connections_in(*table)[uid])
        } else {
            None
        },
{
    table.get(&uid)
}

/// Calls `AHashMap::insert`, which files the value under the key, in place
/// of the value that was filed there, if any.
#[verifier::external_body]
pub(crate) fn insert_connection(
    table: &mut AHashMap<u64, Connection>,
    uid: u64,
    connection: Connection,
)
    ensures
        connections_in(*final(table)) == connections_in(*old(table)).insert(uid, connection),
{
    table.insert(uid, connection);
}

/// Collects what `keys` of the underlying `HashMap` hands out: every key
/// once, in an order that is not fixed.
#[verifier::external_body]
pub(crate) fn connection_uids(table: &AHashMap<u64, Connection>) -> (uids: Vec<u64>)
    ensures
        uids@.no_duplicates(),
        uids@.to_set() == connections_in(*table).dom(),
{
    table.keys().copied().collect()
}

/// The primaries a registry holds: the endpoint identifier of a connection,
/// by the pair of numbers that stands for the physical node it has claimed.
pub uninterp spec fn primaries_in(registry: AHashMap<(u64, u64), u64>) -> Map<(u64, u64), u64>;

/// Calls `AHashMap::new`, which makes an empty map.
#[verifier::external_body]
pub(crate) fn new_registry() -> (registry: AHashMap<(u64, u64), u64>)
    ensures
        primaries_in(registry).dom() == Set::<(u64, u64)>::empty(),
{
    AHashMap::new()
}

/// Calls `AHashMap::get`, which returns the value filed under the key, if
/// there is one.
#[verifier::external_body]
pub(crate) fn get_primary(registry: &AHashMap<(u64, u64), u64>, key: (u64, u64)) -> (found:
    Option<u64>)
    ensures
        found == if primaries_in(*registry).dom().contains(key) {
            Some(primaries_in(*registry)[key])
        } else {
            None
        },
{
    registry.get(&key).copied()
}

/// Calls `AHashMap::insert`, which files the value under the key, in place
/// of the value that was filed there, if any.
#[verifier::external_body]
pub(crate) fn insert_primary(registry: &mut AHashMap<(u64, u64), u64>, key: (u64, u64), uid: u64)
    ensures
        primaries_in(*final(registry)) == primaries_in(*old(registry)).insert(key, uid),
{
    registry.insert(key, uid);
}

/// The subscriber identifiers a set holds.
pub uninterp spec fn subscribers_in(subscribers: AHashSet<u64>) -> Set<u64>;

/// Calls `AHashSet::new`, which makes an empty set.
#[verifier::external_body]
pub(crate) fn new_subscribers() -> (subscribers: AHashSet<u64>)
    ensures
        subscribers_in(subscribers) == Set::<u64>::empty(),
{
    AHashSet::new()
}

/// Calls `insert` of the underlying `HashSet`, which adds the value unless
/// it is there already.
#[verifier::external_body]
pub(crate) fn insert_subscriber(subscribers: &mut AHashSet<u64>, id: u64)
    ensures
        subscribers_in(*final(subscribers)) == subscribers_in(*old(subscribers)).insert(id),
{
    subscribers.insert(id);
}

/// Calls `remove` of the underlying `HashSet`, which takes the value out if
/// it is there.
#[verifier::external_body]
pub(crate) fn remove_subscriber(subscribers: &mut AHashSet<u64>, id: u64)
    ensures
        subscribers_in(*final(subscribers)) == subscribers_in(*old(subscribers)).remove(id),
{
    subscribers.remove(&id);
}

/// Collects what `iter` of the underlying `HashSet` hands out: every value
/// once, in an order that is not fixed.
#[verifier::external_body]
pub(crate) fn subscriber_ids(subscribers: &AHashSet<u64>) -> (ids: Vec<u64>)
    ensures
        ids@.no_duplicates(),
        ids@.to_set() == subscribers_in(*subscribers),
{
    subscribers.iter().copied().collect()
}

/// The nodes a subscriber knows of, grouped by the identifier of the system
/// they run on.
pub uninterp spec fn groups_in(nodes: AHashMap<u64, Vec<Node>>) -> Map<u64, Vec<Node>>;

/// Calls `AHashMap::new`, which makes an empty map.
#[verifier::external_body]
pub(crate) fn new_groups() -> (nodes: AHashMap<u64, Vec<Node>>)
    ensures
        groups_in(nodes).dom() == Set::<u64>::empty(),
{
    AHashMap::new()
}

/// Collects what `keys` of the underlying `HashMap` hands out: every key
/// once, in an order that is not fixed.
#[verifier::external_body]
pub(crate) fn group_sids(nodes: &AHashMap<u64, Vec<Node>>) -> (sids: Vec<u64>)
    ensures
        sids@.no_duplicates(),
        sids@.to_set() == groups_in(*nodes).dom(),
{
    nodes.keys().copied().collect()
}

/// Calls `AHashMap::get`, which returns the value filed under the key, if
/// there is one.
#[verifier::external_body]
pub(crate) fn get_group(nodes: &AHashMap<u64, Vec<Node>>, sid: u64) -> (found: Option<&Vec<Node>>)
    ensures
        found == if groups_in(*nodes).dom().contains(sid) {
            Some(&groups_in(*nodes)[sid])
        } else {
            None
        },
{
    nodes.get(&sid)
}

/// Calls `AHashMap::remove`, which takes out the key and hands back the
/// value that was filed under it, if the key was there.
#[verifier::external_body]
pub(crate) fn take_group(nodes: &mut AHashMap<u64, Vec<Node>>, sid: u64) -> (taken: Option<
    Vec<Node>,
>)
    ensures
        groups_in(*final(nodes)) == groups_in(*old(nodes)).remove(sid),
        taken == if groups_in(*old(nodes)).dom().contains(sid) {
            Some(groups_in(*old(nodes))[sid])
        } else {
            None
        },
{
    nodes.remove(&sid)
}

/// Calls `AHashMap::insert`, which files the value under the key, in place
/// of the value that was filed there, if any.
#[verifier::external_body]
pub(crate) fn insert_group(nodes: &mut AHashMap<u64, Vec<Node>>, sid: u64, group: Vec<Node>)
    ensures
        groups_in(*final(nodes)) == groups_in(*old(nodes)).insert(sid, group),
{
    nodes.insert(sid, group);
}

/// The machines a subscriber knows of, by their system identifier.
pub uninterp spec fn machines_in(machines: AHashMap<u64, Machine>) -> Map<u64, Machine>;

/// Calls `AHashMap::new`, which makes an empty map.
#[verifier::external_body]
pub(crate) fn new_machines() -> (machines: AHashMap<u64, Machine>)
    ensures
        machines_in(machines).dom() == Set::<u64>::empty(),
{
    AHashMap::new()
}

/// Calls `AHashMap::get`, which returns the value filed under the key, if
/// there is one.
#[verifier::external_body]
pub(crate) fn get_machine(machines: &AHashMap<u64, Machine>, sid: u64) -> (found: Option<&Machine>)
    ensures
        found == if machines_in(*machines).dom().contains(sid) {
            Some(&machines_in(*machines)[sid])
        } else {
            None
        },
{
    machines.get(&sid)
}

/// Calls `AHashMap::insert`, which files the value under the key, in place
/// of the value that was filed there, if any.
#[verifier::external_body]
pub(crate) fn insert_machine(machines: &mut AHashMap<u64, Machine>, sid: u64, machine: Machine)
    ensures
        machines_in(*final(machines)) == machines_in(*old(machines)).insert(sid, machine),
{
    machines.insert(sid, machine);
}

} // verus!
