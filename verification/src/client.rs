use crate::machine::{Machine, Node};
use crate::message::Update;
use crate::network::network_code;
use crate::table::{
    get_group, get_machine, group_sids, groups_in, insert_group, insert_machine, machines_in,
    new_groups, new_machines, take_group,
};
use ahash::AHashMap;
use vstd::multiset::Multiset;
use vstd::prelude::*;

verus! {

/// The number by which a node is ordered within its group: that of its
/// network.
pub open spec fn order_key(node: Node) -> int {
    network_code(Node::network_of(node.status))
}

/// Where a node with the key `key` goes in a list in order: behind the last
/// node whose key is not greater.
pub open spec fn place(list: Seq<Node>, key: int) -> int
    decreases list.len(),
{
    if list.len() == 0 {
        0
    } else if order_key(list.last()) <= key {
        list.len() as int
    } else {
        place(list.drop_last(), key)
    }
}

/// The nodes of a list in the order of their networks, nodes of one network
/// in the order they had in the list.
pub open spec fn ordered(list: Seq<Node>) -> Seq<Node>
    decreases list.len(),
{
    if list.len() == 0 {
        Seq::empty()
    } else {
        let front = ordered(list.drop_last());
        front.insert(place(front, order_key(list.last())), list.last())
    }
}

/// Whether the keys of a list never fall.
pub open spec fn in_order(list: Seq<Node>) -> bool {
    forall|i: int, j: int| 0 <= i <= j < list.len() ==> order_key(list[i]) <= order_key(list[j])
}

proof fn lemma_place(list: Seq<Node>, key: int)
    ensures
        0 <= place(list, key) <= list.len(),
        forall|i: int| place(list, key) <= i < list.len() ==> order_key(list[i]) > key,
        place(list, key) > 0 ==> order_key(list[place(list, key) - 1]) <= key,
    decreases list.len(),
{
    if list.len() > 0 && order_key(list.last()) > key {
        let front = list.drop_last();
        lemma_place(front, key);
        assert forall|i: int| place(list, key) <= i < list.len() implies order_key(list[i])
            > key by {
            if i < front.len() {
                assert(list[i] == front[i]);
            }
        }
        if place(list, key) > 0 {
            assert(list[place(list, key) - 1] == front[place(front, key) - 1]);
        }
    }
}

/// Ordering a list loses and adds no node, and the keys of the result never
/// fall.
pub proof fn lemma_ordered(list: Seq<Node>)
    ensures
        ordered(list).len() == list.len(),
        ordered(list).to_multiset() == list.to_multiset(),
        in_order(ordered(list)),
    decreases list.len(),
{
    broadcast use vstd::seq_lib::group_to_multiset_ensures;

    if list.len() == 0 {
    } else {
        let front = ordered(list.drop_last());
        let last = list.last();
        let at = place(front, order_key(last));
        lemma_ordered(list.drop_last());
        lemma_place(front, order_key(last));
        let result = front.insert(at, last);
        assert(list =~= list.drop_last().push(last));
        assert(result =~= front.subrange(0, at) + seq![last] + front.subrange(
            at,
            front.len() as int,
        ));
        assert(front =~= front.subrange(0, at) + front.subrange(at, front.len() as int));
        vstd::seq_lib::lemma_multiset_commutative(
            front.subrange(0, at),
            front.subrange(at, front.len() as int),
        );
        vstd::seq_lib::lemma_multiset_commutative(
            front.subrange(0, at) + seq![last],
            front.subrange(at, front.len() as int),
        );
        vstd::seq_lib::lemma_multiset_commutative(front.subrange(0, at), seq![last]);
        assert(seq![last].to_multiset() =~= Multiset::singleton(last)) by {
            assert(seq![last] =~= Seq::<Node>::empty().push(last));
        }
        assert(result.to_multiset() =~= front.to_multiset().insert(last));
        assert forall|i: int, j: int| 0 <= i <= j < result.len() implies order_key(result[i])
            <= order_key(result[j]) by {
            if i < at && j > at {
                assert(result[i] == front[i]);
                assert(result[j] == front[j - 1]);
            } else if i < at && j < at {
                assert(result[i] == front[i] && result[j] == front[j]);
            } else if i > at {
                assert(result[i] == front[i - 1] && result[j] == front[j - 1]);
            } else if i == at && j > at {
                assert(result[j] == front[j - 1]);
            } else if i < at && j == at {
                assert(result[i] == front[i]);
                assert(order_key(front[i]) <= order_key(front[at - 1]));
            }
        }
    }
}

/// What a subscriber knows of the fleet: the nodes, grouped by the system
/// they run on, and the machines.
pub struct Core {
    nodes: AHashMap<u64, Vec<Node>>,
    machines: AHashMap<u64, Machine>,
}

impl Core {
    /// The groups of nodes, by system identifier.
    pub closed spec fn groups(&self) -> Map<u64, Vec<Node>> {
        groups_in(self.nodes)
    }

    /// The machines, by system identifier.
    pub closed spec fn machines(&self) -> Map<u64, Machine> {
        machines_in(self.machines)
    }

    /// The nodes known to run on the system `sid`, in their order.
    pub open spec fn group(&self, sid: u64) -> Seq<Node> {
        if self.groups().dom().contains(sid) {
            self.groups()[sid]@
        } else {
            Seq::empty()
        }
    }

    /// Makes the state of a subscriber that has heard nothing yet.
    pub fn new() -> (core: Core)
        ensures
            core.groups() == Map::<u64, Vec<Node>>::empty(),
            core.machines() == Map::<u64, Machine>::empty(),
    {
        let core = Core { nodes: new_groups(), machines: new_machines() };
        assert(core.groups() =~= Map::<u64, Vec<Node>>::empty());
        assert(core.machines() =~= Map::<u64, Machine>::empty());
        core
    }

    /// The identifiers of the systems that nodes are known to run on, each
    /// once, in no particular order.
    pub fn systems(&self) -> (sids: Vec<u64>)
        ensures
            sids@.no_duplicates(),
            sids@.to_set() == self.groups().dom(),
    {
        group_sids(&self.nodes)
    }

    /// The nodes known to run on the system `sid`, if any are.
    pub fn nodes(&self, sid: u64) -> (found: Option<&Vec<Node>>)
        ensures
            found == if self.groups().dom().contains(sid) {
                Some(&self.groups()[sid])
            } else {
                None
            },
    {
        get_group(&self.nodes, sid)
    }

    /// The machine with the system identifier `sid`, if it is known.
    pub fn machine(&self, sid: u64) -> (found: Option<&Machine>)
        ensures
            found == if self.machines().dom().contains(sid) {
                Some(&self.machines()[sid])
            } else {
                None
            },
    {
        get_machine(&self.machines, sid)
    }

    /// Takes in an update from the hub.
    ///
    /// Capabilities replace what was known of the machine they come from.
    /// A status goes to the group of the system it comes from: it replaces
    /// the status of the first node there that has the same endpoint; where
    /// there is none, a node is added and the group is put in the order of
    /// the networks.
    pub fn handle_update(&mut self, update: Update)
        ensures
            match update {
                Update::Caps { uid, caps } => {
                    &&& final(self).groups() == old(self).groups()
                    &&& final(self).machines().dom() == old(self).machines().dom().insert(
                        caps.system_id,
                    )
                    &&& final(self).machines()[caps.system_id].view_caps() == caps
                    &&& forall|sid: u64|
                        sid != caps.system_id && old(self).machines().dom().contains(sid)
                            ==> final(self).machines()[sid] == old(self).machines()[sid]
                },
                Update::Status { status } => {
                    let sid = status.spec_sid();
                    let uid = status.spec_uid();
                    let before = old(self).group(sid);
                    let after = final(self).group(sid);
                    let groups = final(self).groups();
                    &&& final(self).machines() == old(self).machines()
                    &&& groups.dom() == old(self).groups().dom().insert(sid)
                    &&& forall|other: u64|
                        other != sid && old(self).groups().dom().contains(other) ==> groups[other]
                            == old(self).groups()[other]
                    &&& (forall|j: int| 0 <= j < before.len() ==> before[j].status.spec_uid() != uid)
                        ==> after == ordered(before.push(Node { status }))
                    &&& forall|i: int|
                        0 <= i < before.len() && before[i].status.spec_uid() == uid && (forall|
                            j: int,
                        | 0 <= j < i ==> before[j].status.spec_uid() != uid) ==> after
                            == before.update(i, Node { status })
                },
            },
    {
        match update {
            Update::Caps { uid: _, caps } => {
                let sid = caps.system_id();
                insert_machine(&mut self.machines, sid, Machine::new(caps));
                assert(final(self).machines().dom() =~= old(self).machines().dom().insert(sid));
            },
            Update::Status { status } => {
                let sid = status.sid();
                let uid = status.uid();
                let mut group = match take_group(&mut self.nodes, sid) {
                    Some(group) => group,
                    None => Vec::new(),
                };
                let ghost before = group@;
                assert(before =~= old(self).group(sid));
                let mut at: usize = 0;
                while at < group.len() && group[at].uid() != uid
                    invariant
                        at <= group@.len(),
                        group@ == before,
                        forall|j: int| 0 <= j < at ==> before[j].status.spec_uid() != uid,
                    decreases group@.len() - at,
                {
                    at += 1;
                }
                if at < group.len() {
                    group.set(at, Node::new(status));
                } else {
                    group.push(Node::new(status));
                    group = sort_nodes(group);
                }
                insert_group(&mut self.nodes, sid, group);
                assert(final(self).groups().dom() =~= old(self).groups().dom().insert(sid));
            },
        }
    }
}

/// Puts the nodes of a list in the order of their networks, nodes of one
/// network in the order they had.
pub fn sort_nodes(list: Vec<Node>) -> (sorted: Vec<Node>)
    ensures
        sorted@ == ordered(list@),
{
    let ghost all = list@;
    let mut rest = list;
    let mut sorted: Vec<Node> = Vec::new();
    let ghost mut done: int = 0;
    assert(all.take(0) =~= Seq::<Node>::empty());
    assert(all.skip(0) =~= all);
    while rest.len() > 0
        invariant
            0 <= done <= all.len(),
            rest@ == all.skip(done),
            sorted@ == ordered(all.take(done)),
        decreases rest@.len(),
    {
        let node = rest.remove(0);
        proof {
            assert(node == all[done]);
            assert(rest@ =~= all.skip(done + 1));
            assert(all.take(done + 1).drop_last() =~= all.take(done));
            assert(all.take(done + 1).last() == all[done]);
            lemma_ordered(all.take(done));
        }
        let key = node.network_id().code();
        let mut at: usize = sorted.len();
        assert(sorted@.take(at as int) =~= sorted@);
        while at > 0 && sorted[at - 1].network_id().code() > key
            invariant
                at <= sorted@.len(),
                key == order_key(node),
                place(sorted@, key as int) == place(sorted@.take(at as int), key as int),
            decreases at,
        {
            proof {
                let upto = sorted@.take(at as int);
                assert(upto.last() == sorted@[at - 1]);
                assert(upto.drop_last() =~= sorted@.take(at - 1));
            }
            at -= 1;
        }
        proof {
            let upto = sorted@.take(at as int);
            if at > 0 {
                assert(upto.last() == sorted@[at - 1]);
            }
            assert(place(upto, key as int) == at);
        }
        sorted.insert(at, node);
        proof {
            done = done + 1;
        }
    }
    assert(all.take(done) =~= all);
    sorted
}

} // verus!
