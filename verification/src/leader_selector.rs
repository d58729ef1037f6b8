//! Deterministic leader selection: the leader is the smallest node of the
//! cluster view.

use vstd::prelude::*;
use crate::types::NodeId;
use crate::node_set::NodeSet;

verus! {

/// `s` is strictly increasing by identifier value.
pub open spec fn strictly_sorted(s: Seq<NodeId>) -> bool {
    forall|i: int, j: int| 0 <= i < j < s.len() ==> s[i].0 < s[j].0
}

/// Two strictly increasing sequences holding the same nodes are equal: the
/// cluster view depends only on which nodes are in the cluster.
pub proof fn lemma_sorted_view_unique(a: Seq<NodeId>, b: Seq<NodeId>)
    requires
        strictly_sorted(a),
        strictly_sorted(b),
        a.to_set() == b.to_set(),
    ensures
        a == b,
    decreases a.len() + b.len(),
{
    if a.len() == 0 {
        if b.len() > 0 {
            assert(b.to_set().contains(b[0]));
            assert(!a.to_set().contains(b[0]));
        }
        assert(a =~= b);
    } else if b.len() == 0 {
        assert(a.to_set().contains(a[0]));
        assert(!b.to_set().contains(a[0]));
    } else {
        let x = a.last();
        let y = b.last();
        assert(a.to_set().contains(x));
        assert(b.to_set().contains(y));
        let ia = choose|i: int| 0 <= i < a.len() && a[i] == y;
        let ib = choose|i: int| 0 <= i < b.len() && b[i] == x;
        assert(x == y) by {
            if x.0 < y.0 {
                assert(a[ia].0 <= x.0);
            } else if y.0 < x.0 {
                assert(b[ib].0 <= y.0);
            }
        }
        let a2 = a.drop_last();
        let b2 = b.drop_last();
        assert forall|z: NodeId| a2.to_set().contains(z) <==> b2.to_set().contains(z) by {
            if a2.to_set().contains(z) {
                let k = choose|k: int| 0 <= k < a2.len() && a2[k] == z;
                assert(a.to_set().contains(z));
                let kb = choose|kb: int| 0 <= kb < b.len() && b[kb] == z;
                assert(z.0 < x.0);
                if kb == b.len() - 1 {
                    assert(false);
                }
                assert(b2[kb] == z);
            }
            if b2.to_set().contains(z) {
                let k = choose|k: int| 0 <= k < b2.len() && b2[k] == z;
                assert(b.to_set().contains(z));
                let ka = choose|ka: int| 0 <= ka < a.len() && a[ka] == z;
                assert(z.0 < y.0);
                if ka == a.len() - 1 {
                    assert(false);
                }
                assert(a2[ka] == z);
            }
        }
        assert(a2.to_set() =~= b2.to_set());
        lemma_sorted_view_unique(a2, b2);
        assert(a =~= a2.push(x));
        assert(b =~= b2.push(y));
    }
}

/// Inserts `x` into the strictly increasing `v` at its place, unless present.
fn sorted_insert(v: &mut Vec<NodeId>, x: NodeId)
    requires
        strictly_sorted(old(v)@),
    ensures
        strictly_sorted(final(v)@),
        final(v)@.to_set() == old(v)@.to_set().insert(x),
{
    let ghost s = v@;
    let mut i: usize = 0;
    while i < v.len()
        invariant
            i <= v@.len(),
            v@ == s,
            strictly_sorted(s),
            forall|j: int| 0 <= j < i ==> s[j].0 < x.0,
        ensures
            i <= s.len(),
            v@ == s,
            forall|j: int| 0 <= j < i ==> s[j].0 < x.0,
            i < s.len() ==> s[i as int].0 > x.0,
        decreases v@.len() - i,
    {
        if v[i].0 == x.0 {
            assert(s.to_set().insert(x) =~= s.to_set()) by {
                assert(s[i as int] == x);
            }
            return;
        }
        if v[i].0 > x.0 {
            break;
        }
        i = i + 1;
    }
    v.insert(i, x);
    proof {
        assert(v@ =~= s.take(i as int).push(x) + s.skip(i as int));
        assert forall|a: int, b: int| 0 <= a < b < v@.len() implies v@[a].0 < v@[b].0 by {
            if a < i && b < i {
            } else if a < i && b == i {
            } else if a < i {
                assert(v@[b] == s[b - 1]);
            } else if a == i {
                assert(v@[b] == s[b - 1]);
                assert(i < s.len() ==> s[i as int].0 > x.0);
                assert(s[i as int].0 <= s[b - 1].0 || b - 1 == i);
            } else {
                assert(v@[a] == s[a - 1]);
                assert(v@[b] == s[b - 1]);
            }
        }
        assert forall|z: NodeId| v@.to_set().contains(z) <==> s.to_set().insert(x).contains(z) by {
            if v@.to_set().contains(z) {
                let k = choose|k: int| 0 <= k < v@.len() && v@[k] == z;
                if k < i {
                    assert(s[k] == z);
                } else if k > i {
                    assert(s[k - 1] == z);
                }
            }
            if s.to_set().contains(z) {
                let k = choose|k: int| 0 <= k < s.len() && s[k] == z;
                if k < i {
                    assert(v@[k] == z);
                } else {
                    assert(v@[k + 1] == z);
                }
            }
            if z == x {
                assert(v@[i as int] == x);
            }
        }
        assert(v@.to_set() =~= s.to_set().insert(x));
    }
}

/// The nodes of `nodes`, strictly increasing.
fn sorted_nodes(nodes: &NodeSet) -> (r: Vec<NodeId>)
    ensures
        strictly_sorted(r@),
        r@.to_set() == nodes.set(),
{
    let list = nodes.to_vec();
    let mut out: Vec<NodeId> = Vec::new();
    let mut i: usize = 0;
    while i < list.len()
        invariant
            i <= list@.len(),
            list@ == nodes@,
            strictly_sorted(out@),
            out@.to_set() == list@.take(i as int).to_set(),
        decreases list@.len() - i,
    {
        sorted_insert(&mut out, list[i]);
        proof {
            assert(list@.take(i + 1) =~= list@.take(i as int).push(list@[i as int]));
            list@.take(i as int).lemma_push_to_set_commute(list@[i as int]);
        }
        i = i + 1;
    }
    assert(list@.take(list@.len() as int) =~= list@);
    out
}

/// Information about the current leadership.
#[derive(Debug, Clone)]
pub struct LeadershipInfo {
    /// Current leader node ID
    pub leader: Option<NodeId>,
    /// All nodes in the cluster view
    pub cluster_nodes: Vec<NodeId>,
    /// Number of nodes in cluster
    pub cluster_size: usize,
}

/// Chooses the leader from the cluster membership: the smallest node.
#[derive(Debug)]
pub struct LeaderSelector {
    cluster_view: Vec<NodeId>,
    current_leader: Option<NodeId>,
}

/// The first node of a view, if any.
pub open spec fn first_of(s: Seq<NodeId>) -> Option<NodeId> {
    if s.len() > 0 { Some(s[0]) } else { None }
}

impl LeaderSelector {
    #[verifier::type_invariant]
    spec fn inv(self) -> bool {
        &&& strictly_sorted(self.cluster_view@)
        &&& self.current_leader == first_of(self.cluster_view@)
    }

    /// The cluster view: the nodes, strictly increasing.
    pub closed spec fn view_seq(&self) -> Seq<NodeId> {
        self.cluster_view@
    }

    /// The current leader.
    pub closed spec fn leader(&self) -> Option<NodeId> {
        self.current_leader
    }

    /// A selector with an empty cluster and no leader.
    pub fn new() -> (r: LeaderSelector)
        ensures
            r.view_seq() == Seq::<NodeId>::empty(),
            r.leader() is None,
    {
        LeaderSelector { cluster_view: Vec::new(), current_leader: None }
    }

    /// A selector for the cluster `nodes`.
    pub fn with_cluster(nodes: NodeSet) -> (r: LeaderSelector)
        ensures
            strictly_sorted(r.view_seq()),
            r.view_seq().to_set() == nodes.set(),
            r.leader() == first_of(r.view_seq()),
    {
        let mut selector = Self::new();
        selector.update_cluster_view(nodes);
        proof { use_type_invariant(&selector); }
        selector
    }

    /// The leader of the current view: its first (smallest) node.
    pub fn determine_leader(&self) -> (r: Option<NodeId>)
        ensures
            r == first_of(self.view_seq()),
    {
        if self.cluster_view.len() > 0 { Some(self.cluster_view[0]) } else { None }
    }

    /// Replaces the cluster view by `nodes`, sorted. Returns the new leader
    /// when the leader changed, else `None`.
    pub fn update_cluster_view(&mut self, nodes: NodeSet) -> (r: Option<NodeId>)
        ensures
            strictly_sorted(final(self).view_seq()),
            final(self).view_seq().to_set() == nodes.set(),
            final(self).leader() == first_of(final(self).view_seq()),
            r == if final(self).leader() != old(self).leader() { final(self).leader() } else { None },
    {
        let new_view = sorted_nodes(&nodes);
        let old_leader = self.current_leader;
        let new_leader = if new_view.len() > 0 { Some(new_view[0]) } else { None };
        *self = LeaderSelector { cluster_view: new_view, current_leader: new_leader };
        if new_leader != old_leader { new_leader } else { None }
    }

    /// Adds `node_id` to the cluster; returns the new leader if it changed.
    pub fn add_node(&mut self, node_id: NodeId) -> (r: Option<NodeId>)
        ensures
            strictly_sorted(final(self).view_seq()),
            final(self).view_seq().to_set() == old(self).view_seq().to_set().insert(node_id),
            final(self).leader() == first_of(final(self).view_seq()),
            r == if final(self).leader() != old(self).leader() { final(self).leader() } else { None },
    {
        let mut nodes = NodeSet::from_vec(self.copy_view());
        nodes.insert(node_id);
        self.update_cluster_view(nodes)
    }

    /// Removes `node_id` from the cluster; returns the new leader if it
    /// changed.
    pub fn remove_node(&mut self, node_id: NodeId) -> (r: Option<NodeId>)
        ensures
            strictly_sorted(final(self).view_seq()),
            final(self).view_seq().to_set() == old(self).view_seq().to_set().remove(node_id),
            final(self).leader() == first_of(final(self).view_seq()),
            r == if final(self).leader() != old(self).leader() { final(self).leader() } else { None },
    {
        let mut nodes = NodeSet::from_vec(self.copy_view());
        nodes.remove(node_id);
        self.update_cluster_view(nodes)
    }

    /// The current leader.
    pub fn get_leader(&self) -> (r: Option<NodeId>)
        ensures
            r == self.leader(),
            r == first_of(self.view_seq()),
    {
        proof { use_type_invariant(self); }
        self.current_leader
    }

    /// Whether `node_id` is the current leader.
    pub fn is_leader(&self, node_id: NodeId) -> (r: bool)
        ensures
            r == (self.leader() == Some(node_id)),
    {
        self.current_leader == Some(node_id)
    }

    /// The cluster view.
    pub fn get_cluster_view(&self) -> (r: &[NodeId])
        ensures
            r@ == self.view_seq(),
    {
        self.cluster_view.as_slice()
    }

    /// A copy of the cluster view.
    fn copy_view(&self) -> (r: Vec<NodeId>)
        ensures
            r@ == self.view_seq(),
    {
        let mut nodes: Vec<NodeId> = Vec::new();
        let mut i: usize = 0;
        while i < self.cluster_view.len()
            invariant
                i <= self.cluster_view@.len(),
                nodes@ == self.cluster_view@.take(i as int),
            decreases self.cluster_view@.len() - i,
        {
            nodes.push(self.cluster_view[i]);
            i = i + 1;
            assert(nodes@ =~= self.cluster_view@.take(i as int));
        }
        assert(self.cluster_view@.take(self.cluster_view@.len() as int) =~= self.cluster_view@);
        nodes
    }

    /// The leader, the view and its size.
    pub fn get_leadership_info(&self) -> (r: LeadershipInfo)
        ensures
            r.leader == self.leader(),
            r.cluster_nodes@ == self.view_seq(),
            r.cluster_size == self.view_seq().len(),
    {
        LeadershipInfo {
            leader: self.current_leader,
            cluster_nodes: self.copy_view(),
            cluster_size: self.cluster_view.len(),
        }
    }

    /// Whether the cluster has any node.
    pub fn has_nodes(&self) -> (r: bool)
        ensures
            r == (self.view_seq().len() > 0),
    {
        self.cluster_view.len() > 0
    }

    /// Number of nodes in the cluster.
    pub fn cluster_size(&self) -> (r: usize)
        ensures
            r == self.view_seq().len(),
    {
        self.cluster_view.len()
    }
}

impl Default for LeaderSelector {
    fn default() -> (r: LeaderSelector)
        ensures
            r.view_seq() == Seq::<NodeId>::empty(),
            r.leader() is None,
    {
        LeaderSelector::new()
    }
}

/// The leader is the smallest node of the cluster: no node of the view has
/// a smaller identifier.
pub proof fn lemma_leader_is_smallest(view: Seq<NodeId>, n: NodeId)
    requires
        strictly_sorted(view),
        view.to_set().contains(n),
    ensures
        first_of(view) matches Some(l) && l.0 <= n.0,
{
    let k = choose|k: int| 0 <= k < view.len() && view[k] == n;
}

} // verus!
