//! Votes cast in one round of a phase: at most one vote per voter, and the
//! count of each value.

use vstd::prelude::*;
use crate::types::{NodeId, StateValue};

verus! {

/// No voter occurs twice in `s`.
pub open spec fn voters_unique(s: Seq<(NodeId, StateValue)>) -> bool {
    forall|i: int, j: int| 0 <= i < j < s.len() ==> s[i].0 != s[j].0
}

/// The vote recorded for `voter` in `s`, if any.
pub open spec fn vote_lookup(s: Seq<(NodeId, StateValue)>, voter: NodeId) -> Option<StateValue>
    decreases s.len(),
{
    if s.len() == 0 {
        None
    } else if s.last().0 == voter {
        Some(s.last().1)
    } else {
        vote_lookup(s.drop_last(), voter)
    }
}

/// How many entries of `s` hold the value `v`.
pub open spec fn count_of(s: Seq<(NodeId, StateValue)>, v: StateValue) -> nat
    decreases s.len(),
{
    if s.len() == 0 {
        0
    } else {
        count_of(s.drop_last(), v) + if s.last().1 == v { 1nat } else { 0nat }
    }
}

/// The value that reaches `quorum` votes, checked in the order V0, V1, V?.
pub open spec fn majority_value(c0: nat, c1: nat, cq: nat, quorum: nat) -> Option<StateValue> {
    if c0 >= quorum {
        Some(StateValue::V0)
    } else if c1 >= quorum {
        Some(StateValue::V1)
    } else if cq >= quorum {
        Some(StateValue::VQuestion)
    } else {
        None
    }
}

/// The majority value among the votes of `s` for the given quorum size.
pub open spec fn seq_majority(s: Seq<(NodeId, StateValue)>, quorum: nat) -> Option<StateValue> {
    majority_value(
        count_of(s, StateValue::V0),
        count_of(s, StateValue::V1),
        count_of(s, StateValue::VQuestion),
        quorum,
    )
}

/// Every vote holds one of the three values.
pub proof fn lemma_counts_sum(s: Seq<(NodeId, StateValue)>)
    ensures
        count_of(s, StateValue::V0) + count_of(s, StateValue::V1) + count_of(s, StateValue::VQuestion)
            == s.len(),
    decreases s.len(),
{
    if s.len() > 0 {
        lemma_counts_sum(s.drop_last());
    }
}

proof fn lemma_count_update(s: Seq<(NodeId, StateValue)>, i: int, x: (NodeId, StateValue), v: StateValue)
    requires
        0 <= i < s.len(),
    ensures
        count_of(s.update(i, x), v) + (if s[i].1 == v { 1nat } else { 0nat })
            == count_of(s, v) + (if x.1 == v { 1nat } else { 0nat }),
    decreases s.len(),
{
    let t = s.update(i, x);
    if i == s.len() - 1 {
        assert(t.drop_last() =~= s.drop_last());
    } else {
        assert(t.drop_last() =~= s.drop_last().update(i, x));
        lemma_count_update(s.drop_last(), i, x, v);
    }
}

proof fn lemma_lookup_update(s: Seq<(NodeId, StateValue)>, i: int, x: StateValue, k: NodeId)
    requires
        0 <= i < s.len(),
        voters_unique(s),
    ensures
        vote_lookup(s.update(i, (s[i].0, x)), k) == if k == s[i].0 { Some(x) } else { vote_lookup(s, k) },
    decreases s.len(),
{
    let t = s.update(i, (s[i].0, x));
    if i == s.len() - 1 {
        assert(t.drop_last() =~= s.drop_last());
        if k != s[i].0 {
        } else {
        }
    } else {
        assert(t.drop_last() =~= s.drop_last().update(i, (s[i].0, x)));
        lemma_lookup_update(s.drop_last(), i, x, k);
    }
}

proof fn lemma_lookup_found(s: Seq<(NodeId, StateValue)>, i: int)
    requires
        0 <= i < s.len(),
        voters_unique(s),
    ensures
        vote_lookup(s, s[i].0) == Some(s[i].1),
    decreases s.len(),
{
    if i < s.len() - 1 {
        lemma_lookup_found(s.drop_last(), i);
    }
}

proof fn lemma_lookup_absent(s: Seq<(NodeId, StateValue)>, k: NodeId)
    requires
        forall|j: int| 0 <= j < s.len() ==> s[j].0 != k,
    ensures
        vote_lookup(s, k) is None,
    decreases s.len(),
{
    if s.len() > 0 {
        lemma_lookup_absent(s.drop_last(), k);
    }
}

fn copy_entries(v: &Vec<(NodeId, StateValue)>) -> (r: Vec<(NodeId, StateValue)>)
    ensures
        r@ == v@,
{
    let mut out: Vec<(NodeId, StateValue)> = Vec::with_capacity(v.len());
    let mut i: usize = 0;
    while i < v.len()
        invariant
            i <= v@.len(),
            out@ == v@.take(i as int),
        decreases v@.len() - i,
    {
        out.push(v[i]);
        i = i + 1;
        assert(out@ =~= v@.take(i as int));
    }
    assert(v@.take(v@.len() as int) =~= v@);
    out
}

/// The votes of one round: one vote per voter, the latest one kept.
#[derive(Debug)]
pub struct VoteMap {
    entries: Vec<(NodeId, StateValue)>,
}

impl View for VoteMap {
    type V = Seq<(NodeId, StateValue)>;

    closed spec fn view(&self) -> Seq<(NodeId, StateValue)> {
        self.entries@
    }
}

impl Clone for VoteMap {
    /// A copy of the same votes.
    fn clone(&self) -> (r: VoteMap)
        ensures
            r@ == self@,
    {
        proof { use_type_invariant(self); }
        VoteMap { entries: copy_entries(&self.entries) }
    }
}

impl VoteMap {
    #[verifier::type_invariant]
    spec fn inv(self) -> bool {
        voters_unique(self.entries@)
    }

    /// An empty set of votes.
    pub fn new() -> (r: VoteMap)
        ensures
            r@ == Seq::<(NodeId, StateValue)>::empty(),
    {
        VoteMap { entries: Vec::new() }
    }

    /// Number of voters.
    pub fn len(&self) -> (r: usize)
        ensures
            r == self@.len(),
            voters_unique(self@),
    {
        proof { use_type_invariant(self); }
        self.entries.len()
    }

    /// Whether no vote was recorded.
    pub fn is_empty(&self) -> (r: bool)
        ensures
            r == (self@.len() == 0),
    {
        self.entries.len() == 0
    }

    /// The vote of `voter`, if recorded.
    pub fn get(&self, voter: NodeId) -> (r: Option<StateValue>)
        ensures
            r == vote_lookup(self@, voter),
    {
        proof { use_type_invariant(self); }
        let mut i: usize = 0;
        while i < self.entries.len()
            invariant
                i <= self.entries@.len(),
                voters_unique(self.entries@),
                forall|j: int| 0 <= j < i ==> self.entries@[j].0 != voter,
            decreases self.entries@.len() - i,
        {
            if self.entries[i].0 == voter {
                proof { lemma_lookup_found(self.entries@, i as int); }
                return Some(self.entries[i].1);
            }
            i = i + 1;
        }
        proof { lemma_lookup_absent(self.entries@, voter); }
        None
    }

    /// Records `vote` for `voter`, replacing the voter's earlier vote.
    pub fn insert(&mut self, voter: NodeId, vote: StateValue)
        ensures
            forall|k: NodeId| #[trigger] vote_lookup(final(self)@, k)
                == if k == voter { Some(vote) } else { vote_lookup(old(self)@, k) },
            voters_unique(final(self)@),
            final(self)@.len() == old(self)@.len() + if vote_lookup(old(self)@, voter) is Some { 0nat } else { 1nat },
            forall|v: StateValue| #[trigger] count_of(final(self)@, v)
                == count_of(old(self)@, v) + (if vote == v { 1nat } else { 0nat })
                    - (if vote_lookup(old(self)@, voter) == Some(v) { 1nat } else { 0nat }),
    {
        proof { use_type_invariant(&*self); }
        let ghost s = self.entries@;
        let mut i: usize = 0;
        while i < self.entries.len()
            invariant
                i <= self.entries@.len(),
                self.entries@ == s,
                s == old(self)@,
                voters_unique(s),
                forall|j: int| 0 <= j < i ==> s[j].0 != voter,
            decreases self.entries@.len() - i,
        {
            if self.entries[i].0 == voter {
                proof {
                    lemma_lookup_found(s, i as int);
                    assert forall|k: NodeId| #[trigger] vote_lookup(s.update(i as int, (voter, vote)), k)
                        == if k == voter { Some(vote) } else { vote_lookup(s, k) } by {
                        lemma_lookup_update(s, i as int, vote, k);
                    }
                    assert forall|v: StateValue| #[trigger] count_of(s.update(i as int, (voter, vote)), v)
                        == count_of(s, v) + (if vote == v { 1nat } else { 0nat })
                            - (if vote_lookup(s, voter) == Some(v) { 1nat } else { 0nat }) by {
                        lemma_count_update(s, i as int, (voter, vote), v);
                    }
                    assert(voters_unique(s.update(i as int, (voter, vote))));
                }
                let mut entries: Vec<(NodeId, StateValue)> = Vec::new();
        std::mem::swap(&mut entries, &mut self.entries);
                entries.set(i, (voter, vote));
                assert(entries@ == s.update(i as int, (voter, vote)));
                self.entries = entries;
                assert(self@ == s.update(i as int, (voter, vote)));
                return;
            }
            i = i + 1;
        }
        proof {
            lemma_lookup_absent(s, voter);
            let t = s.push((voter, vote));
            assert(t.drop_last() =~= s);
            assert(voters_unique(t));
        }
        let mut entries: Vec<(NodeId, StateValue)> = Vec::new();
        std::mem::swap(&mut entries, &mut self.entries);
        entries.push((voter, vote));
        self.entries = entries;
    }

    /// How many voters voted `v`.
    pub fn count(&self, v: StateValue) -> (r: usize)
        ensures
            r == count_of(self@, v),
    {
        let mut n: usize = 0;
        let mut i: usize = 0;
        while i < self.entries.len()
            invariant
                i <= self.entries@.len(),
                n == count_of(self.entries@.take(i as int), v),
                n <= i,
            decreases self.entries@.len() - i,
        {
            proof {
                assert(self.entries@.take(i + 1).drop_last() =~= self.entries@.take(i as int));
            }
            if self.entries[i].1 == v {
                n = n + 1;
            }
            i = i + 1;
        }
        assert(self.entries@.take(self.entries@.len() as int) =~= self.entries@);
        n
    }

    /// The value voted by at least `quorum_size` voters, checked in the
    /// order V0, V1, V?; `None` if no value reaches it.
    pub fn majority(&self, quorum_size: usize) -> (r: Option<StateValue>)
        ensures
            r == seq_majority(self@, quorum_size as nat),
    {
        let c0 = self.count(StateValue::V0);
        let c1 = self.count(StateValue::V1);
        let cq = self.count(StateValue::VQuestion);
        if c0 >= quorum_size {
            Some(StateValue::V0)
        } else if c1 >= quorum_size {
            Some(StateValue::V1)
        } else if cq >= quorum_size {
            Some(StateValue::VQuestion)
        } else {
            None
        }
    }

    /// The recorded votes, one per voter.
    pub fn to_vec(&self) -> (r: Vec<(NodeId, StateValue)>)
        ensures
            r@ == self@,
    {
        copy_entries(&self.entries)
    }
}

/// With a quorum larger than half of the voters, at most one value reaches
/// it: two different values cannot both gather a quorum of votes.
pub proof fn lemma_majority_unique(s: Seq<(NodeId, StateValue)>, quorum: nat, a: StateValue, b: StateValue)
    requires
        2 * quorum > s.len(),
        count_of(s, a) >= quorum,
        count_of(s, b) >= quorum,
    ensures
        a == b,
{
    lemma_counts_sum(s);
}

} // verus!
