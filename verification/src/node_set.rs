//! A set of node identifiers, kept in the order the nodes were added.

use vstd::prelude::*;
use crate::types::NodeId;

verus! {

broadcast use vstd::seq_lib::group_seq_properties;

/// The elements of a filtered sequence are those of the sequence that pass
/// the filter.
pub proof fn lemma_filter_membership<A>(s: Seq<A>, f: spec_fn(A) -> bool)
    ensures
        forall|y: A| #[trigger] s.filter(f).contains(y) <==> (s.contains(y) && f(y)),
{
    broadcast use vstd::seq_lib::group_filter_ensures;
    assert forall|y: A| #[trigger] s.filter(f).contains(y) <==> (s.contains(y) && f(y)) by {
        if s.filter(f).contains(y) {
            s.lemma_filter_contains_rev(f, y);
            let k = choose|k: int| 0 <= k < s.filter(f).len() && s.filter(f)[k] == y;
            s.lemma_filter_pred(f, k);
        }
        if s.contains(y) && f(y) {
            let k = choose|k: int| 0 <= k < s.len() && s[k] == y;
            s.lemma_filter_contains(f, k);
        }
    }
}

/// Filtering keeps a sequence free of duplicates.
pub proof fn lemma_filter_no_dups<A>(s: Seq<A>, f: spec_fn(A) -> bool)
    requires
        s.no_duplicates(),
    ensures
        s.filter(f).no_duplicates(),
    decreases s.len(),
{
    reveal_with_fuel(Seq::filter, 1);
    if s.len() > 0 {
        let t = s.drop_last();
        assert(t.no_duplicates());
        lemma_filter_no_dups(t, f);
        lemma_filter_membership(t, f);
        if f(s.last()) {
            assert(!t.contains(s.last()));
            assert(!t.filter(f).contains(s.last()));
            let u = t.filter(f).push(s.last());
            assert forall|i: int, j: int| 0 <= i < u.len() && 0 <= j < u.len() && i != j implies u[i] != u[j] by {
                if i < u.len() - 1 && j < u.len() - 1 {
                } else if i == u.len() - 1 {
                    assert(t.filter(f).contains(u[j]) || j == u.len() - 1);
                } else {
                    assert(t.filter(f).contains(u[i]));
                }
            }
        }
    }
}

/// A set of nodes: each node at most once, in the order of insertion.
#[derive(Debug)]
pub struct NodeSet {
    nodes: Vec<NodeId>,
}

impl View for NodeSet {
    type V = Seq<NodeId>;

    closed spec fn view(&self) -> Seq<NodeId> {
        self.nodes@
    }
}

impl NodeSet {
    #[verifier::type_invariant]
    spec fn inv(self) -> bool {
        self.nodes@.no_duplicates()
    }

    /// The nodes as a mathematical set.
    pub open spec fn set(&self) -> Set<NodeId> {
        self@.to_set()
    }

    /// The empty set.
    pub fn new() -> (r: NodeSet)
        ensures
            r@ == Seq::<NodeId>::empty(),
            r.set() == Set::<NodeId>::empty(),
    {
        let r = NodeSet { nodes: Vec::new() };
        assert(r@.to_set() =~= Set::<NodeId>::empty());
        r
    }

    /// The set of the distinct nodes of `nodes`, in order of first
    /// occurrence.
    pub fn from_vec(nodes: Vec<NodeId>) -> (r: NodeSet)
        ensures
            r.set() == nodes@.to_set(),
            r@.no_duplicates(),
    {
        let mut s = NodeSet::new();
        let mut i: usize = 0;
        while i < nodes.len()
            invariant
                i <= nodes@.len(),
                s.set() == nodes@.take(i as int).to_set(),
            decreases nodes@.len() - i,
        {
            s.insert(nodes[i]);
            proof {
                assert(nodes@.take(i + 1) =~= nodes@.take(i as int).push(nodes@[i as int]));
                nodes@.take(i as int).lemma_push_to_set_commute(nodes@[i as int]);
            }
            i = i + 1;
        }
        assert(nodes@.take(nodes@.len() as int) =~= nodes@);
        proof { use_type_invariant(&s); }
        s
    }

    /// Number of nodes; always the size of the set.
    pub fn len(&self) -> (r: usize)
        ensures
            r == self@.len(),
            r == self.set().len(),
            self@.no_duplicates(),
    {
        proof {
            use_type_invariant(self);
            self@.unique_seq_to_set();
        }
        self.nodes.len()
    }

    /// Whether the set is empty.
    pub fn is_empty(&self) -> (r: bool)
        ensures
            r == (self@.len() == 0),
    {
        self.nodes.len() == 0
    }

    /// Whether `node` is in the set.
    pub fn contains(&self, node: NodeId) -> (r: bool)
        ensures
            r == self.set().contains(node),
    {
        let mut i: usize = 0;
        while i < self.nodes.len()
            invariant
                i <= self.nodes@.len(),
                forall|j: int| 0 <= j < i ==> self.nodes@[j] != node,
            decreases self.nodes@.len() - i,
        {
            if self.nodes[i] == node {
                assert(self.nodes@.contains(node));
                return true;
            }
            i = i + 1;
        }
        false
    }

    /// Adds `node`; returns whether it was absent.
    pub fn insert(&mut self, node: NodeId) -> (r: bool)
        ensures
            r == !old(self).set().contains(node),
            final(self).set() == old(self).set().insert(node),
            r ==> final(self)@ == old(self)@.push(node),
            !r ==> final(self)@ == old(self)@,
    {
        if self.contains(node) {
            assert(self.set().insert(node) =~= self.set());
            false
        } else {
            proof {
                use_type_invariant(&*self);
                self@.lemma_push_to_set_commute(node);
            }
            let mut nodes: Vec<NodeId> = Vec::new();
            std::mem::swap(&mut nodes, &mut self.nodes);
            nodes.push(node);
            self.nodes = nodes;
            true
        }
    }

    /// Removes `node`; returns whether it was present.
    pub fn remove(&mut self, node: NodeId) -> (r: bool)
        ensures
            r == old(self).set().contains(node),
            final(self).set() == old(self).set().remove(node),
            final(self)@ == old(self)@.filter(|x: NodeId| x != node),
    {
        proof { use_type_invariant(&*self); }
        let ghost s = self.nodes@;
        let mut out: Vec<NodeId> = Vec::new();
        let mut found = false;
        let mut i: usize = 0;
        while i < self.nodes.len()
            invariant
                i <= s.len(),
                self.nodes@ == s,
                out@ == s.take(i as int).filter(|x: NodeId| x != node),
                found == s.take(i as int).contains(node),
            decreases s.len() - i,
        {
            proof {
                assert(s.take(i + 1).drop_last() =~= s.take(i as int));
            }
            let x = self.nodes[i];
            if x != node {
                out.push(x);
            } else {
                found = true;
            }
            proof {
                reveal_with_fuel(Seq::filter, 1);
                assert(s.take(i + 1) =~= s.take(i as int).push(x));
                assert(s.take(i as int).push(x).drop_last() =~= s.take(i as int));
            }
            i = i + 1;
        }
        assert(s.take(s.len() as int) =~= s);
        proof {
            lemma_filter_membership(s, |x: NodeId| x != node);
            assert(out@.to_set() =~= s.to_set().remove(node));
            assert(out@.no_duplicates()) by {
                lemma_filter_no_dups(s, |x: NodeId| x != node);
            }
        }
        self.nodes = out;
        found
    }

    /// The nodes, in order.
    pub fn to_vec(&self) -> (r: Vec<NodeId>)
        ensures
            r@ == self@,
            r@.no_duplicates(),
    {
        proof { use_type_invariant(self); }
        let mut out: Vec<NodeId> = Vec::with_capacity(self.nodes.len());
        let mut i: usize = 0;
        while i < self.nodes.len()
            invariant
                i <= self.nodes@.len(),
                out@ == self.nodes@.take(i as int),
            decreases self.nodes@.len() - i,
        {
            out.push(self.nodes[i]);
            i = i + 1;
            assert(out@ =~= self.nodes@.take(i as int));
        }
        assert(self.nodes@.take(self.nodes@.len() as int) =~= self.nodes@);
        out
    }

    /// The nodes of `self` that are not in `other`, in the order of `self`.
    pub fn difference(&self, other: &NodeSet) -> (r: NodeSet)
        ensures
            r@ == self@.filter(|x: NodeId| !other.set().contains(x)),
            r.set() == self.set().difference(other.set()),
    {
        proof { use_type_invariant(self); }
        let ghost s = self.nodes@;
        let ghost f = |x: NodeId| !other.set().contains(x);
        let mut out: Vec<NodeId> = Vec::new();
        let mut i: usize = 0;
        while i < self.nodes.len()
            invariant
                i <= s.len(),
                self.nodes@ == s,
                f == (|x: NodeId| !other.set().contains(x)),
                out@ == s.take(i as int).filter(f),
            decreases s.len() - i,
        {
            let x = self.nodes[i];
            let keep = !other.contains(x);
            if keep {
                out.push(x);
            }
            proof {
                reveal_with_fuel(Seq::filter, 1);
                assert(s.take(i + 1) =~= s.take(i as int).push(x));
                assert(s.take(i as int).push(x).drop_last() =~= s.take(i as int));
            }
            i = i + 1;
        }
        assert(s.take(s.len() as int) =~= s);
        proof {
            lemma_filter_membership(s, f);
            assert(out@.to_set() =~= s.to_set().difference(other.set()));
            lemma_filter_no_dups(s, f);
        }
        NodeSet { nodes: out }
    }

    /// Whether both sets hold the same nodes.
    pub fn same_nodes(&self, other: &NodeSet) -> (r: bool)
        ensures
            r == (self.set() == other.set()),
    {
        proof {
            use_type_invariant(self);
            use_type_invariant(other);
            self@.unique_seq_to_set();
            other@.unique_seq_to_set();
        }
        if self.nodes.len() != other.nodes.len() {
            return false;
        }
        let mut i: usize = 0;
        while i < self.nodes.len()
            invariant
                i <= self.nodes@.len(),
                forall|j: int| 0 <= j < i ==> other.set().contains(#[trigger] self.nodes@[j]),
            decreases self.nodes@.len() - i,
        {
            if !other.contains(self.nodes[i]) {
                assert(self.set().contains(self.nodes@[i as int]));
                return false;
            }
            i = i + 1;
        }
        proof {
            assert(self.set().subset_of(other.set()));
            vstd::set_lib::lemma_subset_equality(self.set(), other.set());
        }
        true
    }
}

impl Clone for NodeSet {
    /// A copy holding the same nodes in the same order.
    fn clone(&self) -> (r: NodeSet)
        ensures
            r@ == self@,
    {
        NodeSet { nodes: self.to_vec() }
    }
}

} // verus!
