//! A map from string keys to values, each key at most once, entries kept in
//! insertion order.

use vstd::prelude::*;
use crate::table::{
    keys_unique, entries_map, other_key, lemma_entries_dom, lemma_entries_len, lemma_entries_at,
    lemma_entries_update, lemma_entries_filter, lemma_filter_keeps_all, lemma_filter_remove_at,
};

verus! {

/// The entries of `s` with each key taken by its text.
pub open spec fn text_pairs<V>(s: Seq<(String, V)>) -> Seq<(Seq<char>, V)> {
    s.map_values(|e: (String, V)| (e.0@, e.1))
}

/// Entries keyed by strings: setting a present key replaces its value in
/// place, a new key goes to the end.
#[derive(Debug)]
pub struct StrTable<V> {
    entries: Vec<(String, V)>,
}

impl<V> StrTable<V> {
    #[verifier::type_invariant]
    spec fn inv(self) -> bool {
        keys_unique(text_pairs(self.entries@))
    }

    /// The entries, each key by its text, in order.
    pub closed spec fn pairs(&self) -> Seq<(Seq<char>, V)> {
        text_pairs(self.entries@)
    }

    /// The entries as a map.
    pub open spec fn map(&self) -> Map<Seq<char>, V> {
        entries_map(self.pairs())
    }

    /// An empty table.
    pub fn new() -> (r: StrTable<V>)
        ensures
            r.pairs() == Seq::<(Seq<char>, V)>::empty(),
            r.map() == Map::<Seq<char>, V>::empty(),
    {
        let r = StrTable { entries: Vec::new() };
        assert(r.pairs() =~= Seq::<(Seq<char>, V)>::empty());
        r
    }

    /// Number of entries, which is the number of keys.
    pub fn len(&self) -> (r: usize)
        ensures
            r == self.pairs().len(),
            r == self.map().len(),
            keys_unique(self.pairs()),
            self.map().dom().finite(),
    {
        proof {
            use_type_invariant(self);
            lemma_entries_len(self.pairs());
        }
        self.entries.len()
    }

    /// The key of the entry at `i`.
    pub fn key_at(&self, i: usize) -> (r: &String)
        requires
            i < self.pairs().len(),
        ensures
            r@ == self.pairs()[i as int].0,
    {
        &self.entries[i].0
    }

    /// The value of the entry at `i`.
    pub fn value_at(&self, i: usize) -> (r: &V)
        requires
            i < self.pairs().len(),
        ensures
            *r == self.pairs()[i as int].1,
    {
        &self.entries[i].1
    }

    fn find(&self, k: &str) -> (r: Option<usize>)
        ensures
            r matches Some(i) ==> i < self.pairs().len() && self.pairs()[i as int].0 == k@,
            r is None ==> !self.map().contains_key(k@),
            r is None ==> forall|j: int| 0 <= j < self.pairs().len() ==> self.pairs()[j].0 != k@,
    {
        let key = k.to_owned();
        let mut i: usize = 0;
        while i < self.entries.len()
            invariant
                i <= self.entries@.len(),
                key@ == k@,
                forall|j: int| 0 <= j < i ==> self.pairs()[j].0 != k@,
            decreases self.entries@.len() - i,
        {
            if self.entries[i].0 == key {
                return Some(i);
            }
            i = i + 1;
        }
        proof { lemma_entries_dom(self.pairs(), k@); }
        None
    }

    /// Whether `k` has an entry.
    pub fn contains_key(&self, k: &str) -> (r: bool)
        ensures
            r == self.map().contains_key(k@),
    {
        match self.find(k) {
            Some(i) => {
                proof { lemma_entries_dom(self.pairs(), k@); }
                true
            },
            None => false,
        }
    }

    /// The value of `k`, if present.
    pub fn get(&self, k: &str) -> (r: Option<&V>)
        ensures
            r matches Some(v) ==> self.map().contains_key(k@) && *v == self.map()[k@],
            r is None ==> !self.map().contains_key(k@),
    {
        proof { use_type_invariant(self); }
        match self.find(k) {
            Some(i) => {
                proof { lemma_entries_at(self.pairs(), i as int); }
                Some(&self.entries[i].1)
            },
            None => None,
        }
    }

    /// Sets the value of `k`; returns the value it replaced, if any.
    pub fn insert(&mut self, k: String, v: V) -> (r: Option<V>)
        ensures
            final(self).map() == old(self).map().insert(k@, v),
            r matches Some(x) ==> old(self).map().contains_key(k@) && x == old(self).map()[k@],
            r is None ==> !old(self).map().contains_key(k@),
            r is None ==> final(self).pairs() == old(self).pairs().push((k@, v)),
            r is Some ==> final(self).pairs().len() == old(self).pairs().len(),
    {
        proof { use_type_invariant(&*self); }
        let ghost s = self.entries@;
        let ghost ps = text_pairs(s);
        match self.find(k.as_str()) {
            Some(i) => {
                proof {
                    lemma_entries_at(ps, i as int);
                    lemma_entries_update(ps, i as int, v);
                    assert(keys_unique(ps.update(i as int, (k@, v))));
                }
                let mut entries: Vec<(String, V)> = Vec::new();
                std::mem::swap(&mut entries, &mut self.entries);
                let old_entry = entries.remove(i);
                entries.insert(i, (k, v));
                proof {
                    assert(text_pairs(entries@) =~= ps.update(i as int, (ps[i as int].0, v)));
                }
                self.entries = entries;
                Some(old_entry.1)
            },
            None => {
                let ghost kv = k@;
                let mut entries: Vec<(String, V)> = Vec::new();
                std::mem::swap(&mut entries, &mut self.entries);
                entries.push((k, v));
                proof {
                    assert(text_pairs(entries@) =~= ps.push((kv, v)));
                    assert(ps.push((kv, v)).drop_last() =~= ps);
                    assert(keys_unique(ps.push((kv, v))));
                }
                self.entries = entries;
                None
            },
        }
    }

    /// Removes the entry of `k`; returns its value, if it was present.
    pub fn remove(&mut self, k: &str) -> (r: Option<V>)
        ensures
            final(self).map() == old(self).map().remove(k@),
            final(self).pairs() == old(self).pairs().filter(other_key::<Seq<char>, V>(k@)),
            r matches Some(x) ==> old(self).map().contains_key(k@) && x == old(self).map()[k@],
            r is None ==> !old(self).map().contains_key(k@) && final(self).pairs() == old(self).pairs(),
    {
        proof { use_type_invariant(&*self); }
        let ghost s = self.entries@;
        let ghost ps = text_pairs(s);
        proof { lemma_entries_filter(ps, k@); }
        match self.find(k) {
            Some(i) => {
                proof { lemma_entries_at(ps, i as int); }
                let mut entries: Vec<(String, V)> = Vec::new();
                std::mem::swap(&mut entries, &mut self.entries);
                let removed = entries.remove(i);
                proof {
                    assert(text_pairs(entries@) =~= ps.remove(i as int));
                    lemma_filter_remove_at(ps, i as int, k@);
                }
                self.entries = entries;
                Some(removed.1)
            },
            None => {
                proof { lemma_filter_keeps_all(ps, k@); }
                None
            },
        }
    }

    /// Removes every entry.
    pub fn clear(&mut self)
        ensures
            final(self).pairs() == Seq::<(Seq<char>, V)>::empty(),
            final(self).map() == Map::<Seq<char>, V>::empty(),
    {
        self.entries = Vec::new();
        assert(self.pairs() =~= Seq::<(Seq<char>, V)>::empty());
    }
}

} // verus!
