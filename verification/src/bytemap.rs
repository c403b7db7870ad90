//! A map keyed by byte strings, kept as a list of entries with distinct keys.

use vstd::prelude::*;
use crate::frame::bytes_eq;

verus! {

/// A map from byte strings to values.
#[derive(Debug, PartialEq, Eq)]
pub struct ByteMap<V> {
    entries: Vec<(Vec<u8>, V)>,
}

/// No two entries have the same key.
pub open spec fn keys_distinct<V>(s: Seq<(Vec<u8>, V)>) -> bool {
    forall|i: int, j: int| 0 <= i < j < s.len() ==> s[i].0@ != s[j].0@
}

/// The map that a list of entries denotes (a later entry wins).
pub open spec fn entries_map<V>(s: Seq<(Vec<u8>, V)>) -> Map<Seq<u8>, V>
    decreases s.len(),
{
    if s.len() == 0 {
        Map::empty()
    } else {
        entries_map(s.drop_last()).insert(s.last().0@, s.last().1)
    }
}

proof fn lemma_entries_dom<V>(s: Seq<(Vec<u8>, V)>, k: Seq<u8>)
    ensures
        entries_map(s).contains_key(k) <==> exists|i: int| 0 <= i < s.len() && #[trigger] s[i].0@ == k,
    decreases s.len(),
{
    if s.len() > 0 {
        lemma_entries_dom(s.drop_last(), k);
        if entries_map(s).contains_key(k) && s.last().0@ != k {
            let i = choose|i: int| 0 <= i < s.drop_last().len() && #[trigger] s.drop_last()[i].0@ == k;
            assert(s[i].0@ == k);
        }
        if exists|i: int| 0 <= i < s.len() && #[trigger] s[i].0@ == k {
            let i = choose|i: int| 0 <= i < s.len() && #[trigger] s[i].0@ == k;
            if i < s.len() - 1 {
                assert(s.drop_last()[i].0@ == k);
            }
        }
    }
}

proof fn lemma_entries_value<V>(s: Seq<(Vec<u8>, V)>, i: int)
    requires
        keys_distinct(s),
        0 <= i < s.len(),
    ensures
        entries_map(s).contains_key(s[i].0@),
        entries_map(s)[s[i].0@] == s[i].1,
    decreases s.len(),
{
    if i < s.len() - 1 {
        assert(keys_distinct(s.drop_last()));
        lemma_entries_value(s.drop_last(), i);
        assert(s.drop_last()[i] == s[i]);
    }
}

proof fn lemma_entries_update<V>(s: Seq<(Vec<u8>, V)>, i: int, e: (Vec<u8>, V))
    requires
        keys_distinct(s),
        0 <= i < s.len(),
        e.0@ == s[i].0@,
    ensures
        keys_distinct(s.update(i, e)),
        entries_map(s.update(i, e)) == entries_map(s).insert(e.0@, e.1),
    decreases s.len(),
{
    let t = s.update(i, e);
    if i == s.len() - 1 {
        assert(t.drop_last() =~= s.drop_last());
        if s.len() > 1 {
            assert(keys_distinct(s.drop_last()));
            lemma_entries_dom(s.drop_last(), e.0@);
            assert(!entries_map(s.drop_last()).contains_key(e.0@));
        }
        assert(entries_map(t) =~= entries_map(s).insert(e.0@, e.1));
    } else {
        assert(keys_distinct(s.drop_last()));
        lemma_entries_update(s.drop_last(), i, e);
        assert(t.drop_last() =~= s.drop_last().update(i, e));
        assert(entries_map(t) =~= entries_map(s).insert(e.0@, e.1));
    }
}

impl<V> ByteMap<V> {
    #[verifier::type_invariant]
    spec fn inv(self) -> bool {
        keys_distinct(self.entries@)
    }

    /// The map's contents.
    pub closed spec fn view(&self) -> Map<Seq<u8>, V> {
        entries_map(self.entries@)
    }

    /// An empty map.
    pub fn new() -> (m: Self)
        ensures
            m.view() == Map::<Seq<u8>, V>::empty(),
    {
        ByteMap { entries: Vec::new() }
    }

    fn find(&self, key: &Vec<u8>) -> (r: Option<usize>)
        ensures
            match r {
                Some(i) => i < self.entries@.len() && self.entries@[i as int].0@ == key@,
                None => !self.view().contains_key(key@),
            },
    {
        proof { use_type_invariant(self); }
        let mut i: usize = 0;
        while i < self.entries.len()
            invariant
                i <= self.entries@.len(),
                forall|j: int| 0 <= j < i ==> #[trigger] self.entries@[j].0@ != key@,
            decreases self.entries@.len() - i,
        {
            if bytes_eq(&self.entries[i].0, key) {
                return Some(i);
            }
            i = i + 1;
        }
        proof { lemma_entries_dom(self.entries@, key@); }
        None
    }

    /// Whether `key` has a value.
    pub fn contains_key(&self, key: &Vec<u8>) -> (r: bool)
        ensures
            r == self.view().contains_key(key@),
    {
        proof { use_type_invariant(self); }
        match self.find(key) {
            Some(i) => {
                proof { lemma_entries_value(self.entries@, i as int); }
                true
            },
            None => false,
        }
    }

    /// The value of `key`, if any.
    pub fn get(&self, key: &Vec<u8>) -> (r: Option<&V>)
        ensures
            match r {
                Some(v) => self.view().contains_key(key@) && self.view()[key@] == *v,
                None => !self.view().contains_key(key@),
            },
    {
        proof { use_type_invariant(self); }
        match self.find(key) {
            Some(i) => {
                proof { lemma_entries_value(self.entries@, i as int); }
                Some(&self.entries[i].1)
            },
            None => None,
        }
    }

    /// Sets the value of `key`, replacing any earlier one.
    pub fn insert(&mut self, key: Vec<u8>, value: V)
        ensures
            final(self).view() == old(self).view().insert(key@, value),
    {
        proof { use_type_invariant(&*self); }
        let found = self.find(&key);
        let ghost s = self.entries@;
        let mut e: Vec<(Vec<u8>, V)> = Vec::new();
        std::mem::swap(&mut e, &mut self.entries);
        match found {
            Some(i) => {
                proof { lemma_entries_update(s, i as int, (key, value)); }
                e.set(i, (key, value));
            },
            None => {
                proof { lemma_entries_dom(s, key@); }
                e.push((key, value));
                assert(e@.drop_last() =~= s);
            },
        }
        self.entries = e;
    }
}

} // verus!
