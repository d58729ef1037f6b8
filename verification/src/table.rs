//! Maps kept as sequences of entries, each key at most once and entries in
//! insertion order; and a table of such entries keyed by 128-bit numbers.

use vstd::prelude::*;

verus! {

/// No key occurs twice in `s`.
pub open spec fn keys_unique<K, V>(s: Seq<(K, V)>) -> bool {
    forall|i: int, j: int| 0 <= i < j < s.len() ==> s[i].0 != s[j].0
}

/// The test that keeps the entries whose key is not `k`.
pub open spec fn other_key<K, V>(k: K) -> spec_fn((K, V)) -> bool {
    |e: (K, V)| e.0 != k
}

/// The map that the entries of `s` describe.
pub open spec fn entries_map<K, V>(s: Seq<(K, V)>) -> Map<K, V>
    decreases s.len(),
{
    if s.len() == 0 {
        Map::empty()
    } else {
        entries_map(s.drop_last()).insert(s.last().0, s.last().1)
    }
}

/// The keys of `s` are exactly the domain of its map.
pub proof fn lemma_entries_dom<K, V>(s: Seq<(K, V)>, k: K)
    ensures
        entries_map(s).contains_key(k) <==> exists|i: int| 0 <= i < s.len() && s[i].0 == k,
    decreases s.len(),
{
    if s.len() > 0 {
        lemma_entries_dom(s.drop_last(), k);
        if entries_map(s.drop_last()).contains_key(k) {
            let i = choose|i: int| 0 <= i < s.drop_last().len() && s.drop_last()[i].0 == k;
            assert(s[i].0 == k);
        }
        if exists|i: int| 0 <= i < s.len() && s[i].0 == k {
            let i = choose|i: int| 0 <= i < s.len() && s[i].0 == k;
            if i < s.len() - 1 {
                assert(s.drop_last()[i].0 == k);
            }
        }
    }
}

/// With unique keys, the map has as many keys as there are entries.
pub proof fn lemma_entries_len<K, V>(s: Seq<(K, V)>)
    requires
        keys_unique(s),
    ensures
        entries_map(s).len() == s.len(),
        entries_map(s).dom().finite(),
    decreases s.len(),
{
    if s.len() > 0 {
        lemma_entries_len(s.drop_last());
        lemma_entries_dom(s.drop_last(), s.last().0);
    }
}

/// With unique keys, the map sends the key of each entry to its value.
pub proof fn lemma_entries_at<K, V>(s: Seq<(K, V)>, i: int)
    requires
        keys_unique(s),
        0 <= i < s.len(),
    ensures
        entries_map(s).contains_key(s[i].0),
        entries_map(s)[s[i].0] == s[i].1,
    decreases s.len(),
{
    if i < s.len() - 1 {
        lemma_entries_at(s.drop_last(), i);
    }
}

pub(crate) proof fn lemma_entries_update<K, V>(s: Seq<(K, V)>, i: int, v: V)
    requires
        keys_unique(s),
        0 <= i < s.len(),
    ensures
        entries_map(s.update(i, (s[i].0, v))) == entries_map(s).insert(s[i].0, v),
    decreases s.len(),
{
    let t = s.update(i, (s[i].0, v));
    if i == s.len() - 1 {
        assert(t.drop_last() =~= s.drop_last());
        lemma_entries_dom(s.drop_last(), s[i].0);
        assert(entries_map(t) =~= entries_map(s).insert(s[i].0, v));
    } else {
        assert(t.drop_last() =~= s.drop_last().update(i, (s[i].0, v)));
        lemma_entries_update(s.drop_last(), i, v);
        assert(entries_map(t) =~= entries_map(s).insert(s[i].0, v));
    }
}

pub(crate) proof fn lemma_entries_filter<K, V>(s: Seq<(K, V)>, k: K)
    requires
        keys_unique(s),
    ensures
        entries_map(s.filter(other_key::<K, V>(k))) == entries_map(s).remove(k),
        keys_unique(s.filter(other_key::<K, V>(k))),
        s.filter(other_key::<K, V>(k)).len() <= s.len(),
    decreases s.len(),
{
    reveal_with_fuel(Seq::filter, 1);
    let f = other_key::<K, V>(k);
    if s.len() > 0 {
        let t = s.drop_last();
        lemma_entries_filter(t, k);
        lemma_entries_dom(t, s.last().0);
        let ft = t.filter(f);
        if f(s.last()) {
            assert(s.filter(f) == ft.push(s.last()));
            assert(ft.push(s.last()).drop_last() =~= ft);
            assert(entries_map(s.filter(f)) =~= entries_map(s).remove(k));
            assert forall|a: int, b: int| 0 <= a < b < ft.push(s.last()).len() implies ft.push(s.last())[a].0 != ft.push(s.last())[b].0 by {
                if b == ft.len() {
                    lemma_entries_dom(ft, s.last().0);
                    if ft[a].0 == s.last().0 {
                        assert(entries_map(ft).contains_key(s.last().0));
                    }
                }
            }
        } else {
            assert(s.filter(f) == ft);
            assert(entries_map(s.filter(f)) =~= entries_map(s).remove(k));
        }
    }
}

/// Keeping the entries that pass a test keeps exactly the keys whose entry
/// passes it.
pub proof fn lemma_entries_retain<K, V>(s: Seq<(K, V)>, p: spec_fn((K, V)) -> bool)
    requires
        keys_unique(s),
    ensures
        keys_unique(s.filter(p)),
        entries_map(s.filter(p)) == entries_map(s).restrict(
            entries_map(s).dom().filter(|k: K| p((k, entries_map(s)[k])))),
    decreases s.len(),
{
    reveal_with_fuel(Seq::filter, 1);
    if s.len() > 0 {
        let t = s.drop_last();
        lemma_entries_retain(t, p);
        lemma_entries_dom(t, s.last().0);
        let ft = t.filter(p);
        if p(s.last()) {
            assert(s.filter(p) == ft.push(s.last()));
            assert(ft.push(s.last()).drop_last() =~= ft);
            assert forall|a: int, b: int| 0 <= a < b < ft.push(s.last()).len() implies ft.push(s.last())[a].0 != ft.push(s.last())[b].0 by {
                if b == ft.len() {
                    lemma_entries_dom(ft, s.last().0);
                    if ft[a].0 == s.last().0 {
                        assert(entries_map(ft).contains_key(s.last().0));
                    }
                }
            }
        } else {
            assert(s.filter(p) == ft);
        }
        assert(entries_map(s.filter(p)) =~= entries_map(s).restrict(
            entries_map(s).dom().filter(|k: K| p((k, entries_map(s)[k])))));
    }
}

/// Entries keyed by 128-bit numbers: inserting a present key replaces its
/// value in place, a new key goes to the end.
#[derive(Debug)]
pub struct Table<V> {
    entries: Vec<(u128, V)>,
}

impl<V> Table<V> {
    #[verifier::type_invariant]
    spec fn inv(self) -> bool {
        keys_unique(self.entries@)
    }

    /// The entries, in order.
    pub closed spec fn entries(&self) -> Seq<(u128, V)> {
        self.entries@
    }

    /// The entries as a map.
    pub open spec fn map(&self) -> Map<u128, V> {
        entries_map(self.entries())
    }

    /// An empty table.
    pub fn new() -> (r: Table<V>)
        ensures
            r.entries() == Seq::<(u128, V)>::empty(),
            r.map() == Map::<u128, V>::empty(),
    {
        Table { entries: Vec::new() }
    }

    /// Number of entries, which is the number of keys.
    pub fn len(&self) -> (r: usize)
        ensures
            r == self.entries().len(),
            keys_unique(self.entries()),
    {
        proof { use_type_invariant(self); }
        self.entries.len()
    }

    /// The key of the entry at `i`.
    pub fn key_at(&self, i: usize) -> (r: u128)
        requires
            i < self.entries().len(),
        ensures
            r == self.entries()[i as int].0,
    {
        self.entries[i].0
    }

    /// The value of the entry at `i`.
    pub fn value_at(&self, i: usize) -> (r: &V)
        requires
            i < self.entries().len(),
        ensures
            *r == self.entries()[i as int].1,
    {
        &self.entries[i].1
    }

    fn find(&self, k: u128) -> (r: Option<usize>)
        ensures
            r matches Some(i) ==> i < self.entries().len() && self.entries()[i as int].0 == k,
            r is None ==> !self.map().contains_key(k),
            r is None ==> forall|j: int| 0 <= j < self.entries().len() ==> self.entries()[j].0 != k,
    {
        let mut i: usize = 0;
        while i < self.entries.len()
            invariant
                i <= self.entries@.len(),
                forall|j: int| 0 <= j < i ==> self.entries@[j].0 != k,
            decreases self.entries@.len() - i,
        {
            if self.entries[i].0 == k {
                return Some(i);
            }
            i = i + 1;
        }
        proof { lemma_entries_dom(self.entries@, k); }
        None
    }

    /// Whether `k` has an entry.
    pub fn contains_key(&self, k: u128) -> (r: bool)
        ensures
            r == self.map().contains_key(k),
    {
        match self.find(k) {
            Some(i) => {
                proof { lemma_entries_dom(self.entries@, k); }
                true
            },
            None => false,
        }
    }

    /// The value of `k`, if present.
    pub fn get(&self, k: u128) -> (r: Option<&V>)
        ensures
            r matches Some(v) ==> self.map().contains_key(k) && *v == self.map()[k],
            r is None ==> !self.map().contains_key(k),
    {
        proof { use_type_invariant(self); }
        match self.find(k) {
            Some(i) => {
                proof { lemma_entries_at(self.entries@, i as int); }
                Some(&self.entries[i].1)
            },
            None => None,
        }
    }

    /// Sets the value of `k`; returns the value it replaced, if any.
    pub fn insert(&mut self, k: u128, v: V) -> (r: Option<V>)
        ensures
            final(self).map() == old(self).map().insert(k, v),
            r matches Some(x) ==> old(self).map().contains_key(k) && x == old(self).map()[k],
            r is None ==> !old(self).map().contains_key(k),
            r is None ==> final(self).entries() == old(self).entries().push((k, v)),
    {
        proof { use_type_invariant(&*self); }
        let ghost s = self.entries@;
        match self.find(k) {
            Some(i) => {
                proof {
                    lemma_entries_at(s, i as int);
                    lemma_entries_update(s, i as int, v);
                    assert(keys_unique(s.update(i as int, (k, v))));
                }
                let mut entries: Vec<(u128, V)> = Vec::new();
                std::mem::swap(&mut entries, &mut self.entries);
                let old_entry = entries.remove(i);
                entries.insert(i, (k, v));
                proof {
                    assert(entries@ =~= s.update(i as int, (k, v)));
                }
                self.entries = entries;
                Some(old_entry.1)
            },
            None => {
                proof {
                    assert(s.push((k, v)).drop_last() =~= s);
                    assert(keys_unique(s.push((k, v))));
                }
                let mut entries: Vec<(u128, V)> = Vec::new();
                std::mem::swap(&mut entries, &mut self.entries);
                entries.push((k, v));
                self.entries = entries;
                None
            },
        }
    }

    /// Removes the entry of `k`; returns its value, if it was present.
    pub fn remove(&mut self, k: u128) -> (r: Option<V>)
        ensures
            final(self).map() == old(self).map().remove(k),
            final(self).entries() == old(self).entries().filter(other_key::<u128, V>(k)),
            r matches Some(x) ==> old(self).map().contains_key(k) && x == old(self).map()[k],
            r is None ==> !old(self).map().contains_key(k) && final(self).entries() == old(self).entries(),
    {
        proof { use_type_invariant(&*self); }
        let ghost s = self.entries@;
        proof { lemma_entries_filter(s, k); }
        match self.find(k) {
            Some(i) => {
                proof { lemma_entries_at(s, i as int); }
                let mut entries: Vec<(u128, V)> = Vec::new();
                std::mem::swap(&mut entries, &mut self.entries);
                let removed = entries.remove(i);
                proof {
                    let f = other_key::<u128, V>(k);
                    assert(entries@ =~= s.filter(f)) by {
                        lemma_filter_remove_at(s, i as int, k);
                    }
                }
                self.entries = entries;
                Some(removed.1)
            },
            None => {
                proof {
                    lemma_filter_keeps_all(s, k);
                }
                None
            },
        }
    }

    /// Keeps the entries for which `keep` holds and removes the others;
    /// returns how many were removed. `keep` computes the test `p`.
    pub fn retain<F: Fn(&(u128, V)) -> bool>(&mut self, keep: F, Ghost(p): Ghost<spec_fn((u128, V)) -> bool>) -> (removed: usize)
        requires
            forall|e: &(u128, V)| #[trigger] keep.requires((e,)),
            forall|e: &(u128, V), b: bool| keep.ensures((e,), b) ==> b == p(*e),
        ensures
            final(self).entries() == old(self).entries().filter(p),
            final(self).map() == old(self).map().restrict(
                old(self).map().dom().filter(|k: u128| p((k, old(self).map()[k])))),
            removed == old(self).entries().len() - final(self).entries().len(),
    {
        proof {
            use_type_invariant(&*self);
            lemma_entries_retain(self.entries@, p);
        }
        let ghost s = self.entries@;
        let mut rest: Vec<(u128, V)> = Vec::new();
        std::mem::swap(&mut rest, &mut self.entries);
        let mut kept: Vec<(u128, V)> = Vec::new();
        let mut i: usize = 0;
        let n = rest.len();
        while rest.len() > 0
            invariant
                rest@ == s.skip(i as int),
                kept@ == s.take(i as int).filter(p),
                i + rest@.len() == s.len(),
                n == s.len(),
                forall|e: &(u128, V)| #[trigger] keep.requires((e,)),
                forall|e: &(u128, V), b: bool| keep.ensures((e,), b) ==> b == p(*e),
            decreases rest@.len(),
        {
            let e = rest.remove(0);
            let b = keep(&e);
            proof {
                reveal_with_fuel(Seq::filter, 1);
                assert(s.take(i + 1) =~= s.take(i as int).push(e));
                assert(s.take(i as int).push(e).drop_last() =~= s.take(i as int));
                assert(rest@ =~= s.skip(i + 1));
            }
            if b {
                kept.push(e);
            }
            i = i + 1;
        }
        proof {
            assert(s.take(s.len() as int) =~= s);
            s.lemma_filter_len(p);
        }
        let removed = n - kept.len();
        self.entries = kept;
        removed
    }

    /// Removes every entry.
    pub fn clear(&mut self)
        ensures
            final(self).entries() == Seq::<(u128, V)>::empty(),
            final(self).map() == Map::<u128, V>::empty(),
    {
        self.entries = Vec::new();
    }
}

pub(crate) proof fn lemma_filter_keeps_all<K, V>(s: Seq<(K, V)>, k: K)
    requires
        forall|j: int| 0 <= j < s.len() ==> s[j].0 != k,
    ensures
        s.filter(other_key::<K, V>(k)) == s,
    decreases s.len(),
{
    reveal_with_fuel(Seq::filter, 1);
    if s.len() > 0 {
        lemma_filter_keeps_all(s.drop_last(), k);
        assert(s.drop_last().push(s.last()) =~= s);
    }
}

pub(crate) proof fn lemma_filter_remove_at<K, V>(s: Seq<(K, V)>, i: int, k: K)
    requires
        keys_unique(s),
        0 <= i < s.len(),
        s[i].0 == k,
    ensures
        s.filter(other_key::<K, V>(k)) == s.remove(i),
    decreases s.len(),
{
    reveal_with_fuel(Seq::filter, 1);
    let f = other_key::<K, V>(k);
    if i == s.len() - 1 {
        lemma_filter_keeps_all(s.drop_last(), k);
        assert(s.remove(i) =~= s.drop_last());
    } else {
        lemma_filter_remove_at(s.drop_last(), i, k);
        assert(s.remove(i) =~= s.drop_last().remove(i).push(s.last()));
    }
}

} // verus!
