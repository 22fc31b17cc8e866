//! An in-memory key/value store with string keys and byte-string values.
//!
//! Entries are kept in a vector whose keys are pairwise distinct, so that each key maps
//! to exactly one value, as in a hash map.

use vstd::prelude::*;

use crate::text::str_eq;

verus! {

/// In-memory key/value store.
#[derive(Debug)]
pub struct KvStore {
    entries: Vec<(String, Vec<u8>)>,
}

/// The keys of `e` are pairwise distinct.
pub open spec fn distinct_keys(e: Seq<(String, Vec<u8>)>) -> bool {
    forall|i: int, j: int| 0 <= i < e.len() && 0 <= j < e.len() && i != j ==> #[trigger] e[i].0@
        != #[trigger] e[j].0@
}

/// The map described by an entry list.
pub open spec fn entries_map(e: Seq<(String, Vec<u8>)>) -> Map<Seq<char>, Seq<u8>> {
    Map::new(
        |k: Seq<char>| exists|i: int| 0 <= i < e.len() && #[trigger] e[i].0@ == k,
        |k: Seq<char>| e[choose|i: int| 0 <= i < e.len() && #[trigger] e[i].0@ == k].1@,
    )
}

proof fn lemma_entries_map_at(e: Seq<(String, Vec<u8>)>, i: int)
    requires
        distinct_keys(e),
        0 <= i < e.len(),
    ensures
        entries_map(e).contains_key(e[i].0@),
        entries_map(e)[e[i].0@] == e[i].1@,
{
    let k = e[i].0@;
    assert(exists|j: int| 0 <= j < e.len() && #[trigger] e[j].0@ == k);
    let j = choose|j: int| 0 <= j < e.len() && #[trigger] e[j].0@ == k;
    assert(j == i);
}

proof fn lemma_update(e: Seq<(String, Vec<u8>)>, i: int, x: (String, Vec<u8>))
    requires
        distinct_keys(e),
        0 <= i < e.len(),
        x.0@ == e[i].0@,
    ensures
        distinct_keys(e.update(i, x)),
        entries_map(e.update(i, x)) == entries_map(e).insert(x.0@, x.1@),
{
    let a = e.update(i, x);
    assert(distinct_keys(a)) by {
        assert forall|p: int, q: int| 0 <= p < a.len() && 0 <= q < a.len() && p != q implies #[trigger] a[p].0@
            != #[trigger] a[q].0@ by {
            assert(a[p].0@ == e[p].0@);
            assert(a[q].0@ == e[q].0@);
        }
    }
    assert forall|k: Seq<char>| #[trigger] entries_map(a).contains_key(k) == entries_map(e).insert(x.0@, x.1@).contains_key(k) by {
        if entries_map(e).contains_key(k) {
            let j = choose|j: int| 0 <= j < e.len() && #[trigger] e[j].0@ == k;
            assert(a[j].0@ == k);
        }
        if entries_map(a).contains_key(k) {
            let j = choose|j: int| 0 <= j < a.len() && #[trigger] a[j].0@ == k;
            assert(e[j].0@ == k);
        }
    }
    assert forall|k: Seq<char>| #[trigger] entries_map(a).contains_key(k) implies entries_map(a)[k]
        == entries_map(e).insert(x.0@, x.1@)[k] by {
        let j = choose|j: int| 0 <= j < a.len() && #[trigger] a[j].0@ == k;
        lemma_entries_map_at(a, j);
        if j != i {
            lemma_entries_map_at(e, j);
        }
    }
    assert(entries_map(a) =~= entries_map(e).insert(x.0@, x.1@));
}

proof fn lemma_push(e: Seq<(String, Vec<u8>)>, x: (String, Vec<u8>))
    requires
        distinct_keys(e),
        forall|j: int| 0 <= j < e.len() ==> #[trigger] e[j].0@ != x.0@,
    ensures
        distinct_keys(e.push(x)),
        entries_map(e.push(x)) == entries_map(e).insert(x.0@, x.1@),
{
    let a = e.push(x);
    assert(distinct_keys(a)) by {
        assert forall|p: int, q: int| 0 <= p < a.len() && 0 <= q < a.len() && p != q implies #[trigger] a[p].0@
            != #[trigger] a[q].0@ by {
            if p < e.len() {
                assert(a[p] == e[p]);
            }
            if q < e.len() {
                assert(a[q] == e[q]);
            }
        }
    }
    assert forall|k: Seq<char>| #[trigger] entries_map(a).contains_key(k) == entries_map(e).insert(x.0@, x.1@).contains_key(k) by {
        if entries_map(e).contains_key(k) {
            let j = choose|j: int| 0 <= j < e.len() && #[trigger] e[j].0@ == k;
            assert(a[j].0@ == k);
        }
        if k == x.0@ {
            assert(a[e.len() as int].0@ == k);
        }
        if entries_map(a).contains_key(k) {
            let j = choose|j: int| 0 <= j < a.len() && #[trigger] a[j].0@ == k;
            if j < e.len() {
                assert(e[j].0@ == k);
            }
        }
    }
    assert forall|k: Seq<char>| #[trigger] entries_map(a).contains_key(k) implies entries_map(a)[k]
        == entries_map(e).insert(x.0@, x.1@)[k] by {
        let j = choose|j: int| 0 <= j < a.len() && #[trigger] a[j].0@ == k;
        lemma_entries_map_at(a, j);
        if j < e.len() {
            assert(a[j] == e[j]);
            lemma_entries_map_at(e, j);
        }
    }
    assert(entries_map(a) =~= entries_map(e).insert(x.0@, x.1@));
}

proof fn lemma_remove(e: Seq<(String, Vec<u8>)>, i: int)
    requires
        distinct_keys(e),
        0 <= i < e.len(),
    ensures
        distinct_keys(e.remove(i)),
        entries_map(e.remove(i)) == entries_map(e).remove(e[i].0@),
{
    let a = e.remove(i);
    assert forall|p: int| 0 <= p < a.len() implies #[trigger] a[p] == e[if p < i {
        p
    } else {
        p + 1
    }] by {}
    assert(distinct_keys(a)) by {
        assert forall|p: int, q: int| 0 <= p < a.len() && 0 <= q < a.len() && p != q implies #[trigger] a[p].0@
            != #[trigger] a[q].0@ by {
            assert(a[p] == e[if p < i { p } else { p + 1 }]);
            assert(a[q] == e[if q < i { q } else { q + 1 }]);
        }
    }
    let k0 = e[i].0@;
    assert forall|k: Seq<char>| #[trigger] entries_map(a).contains_key(k) == entries_map(e).remove(k0).contains_key(k) by {
        if entries_map(e).contains_key(k) && k != k0 {
            let j = choose|j: int| 0 <= j < e.len() && #[trigger] e[j].0@ == k;
            let p = if j < i { j } else { j - 1 };
            assert(a[p] == e[if p < i { p } else { p + 1 }]);
            assert(a[p].0@ == k);
        }
        if entries_map(a).contains_key(k) {
            let p = choose|p: int| 0 <= p < a.len() && #[trigger] a[p].0@ == k;
            let j = if p < i { p } else { p + 1 };
            assert(a[p] == e[j]);
            assert(e[j].0@ == k);
            assert(j != i);
        }
    }
    assert forall|k: Seq<char>| #[trigger] entries_map(a).contains_key(k) implies entries_map(a)[k]
        == entries_map(e).remove(k0)[k] by {
        let p = choose|p: int| 0 <= p < a.len() && #[trigger] a[p].0@ == k;
        let j = if p < i { p } else { p + 1 };
        assert(a[p] == e[j]);
        lemma_entries_map_at(a, p);
        lemma_entries_map_at(e, j);
    }
    assert(entries_map(a) =~= entries_map(e).remove(k0));
}

impl KvStore {
    #[verifier::type_invariant]
    closed spec fn inv(&self) -> bool {
        distinct_keys(self.entries@)
    }

    /// The contents of the store.
    pub closed spec fn contents(&self) -> Map<Seq<char>, Seq<u8>> {
        entries_map(self.entries@)
    }

    /// An empty store.
    pub fn new() -> (s: Self)
        ensures
            s.contents() == Map::<Seq<char>, Seq<u8>>::empty(),
    {
        let s = KvStore { entries: Vec::new() };
        assert(s.contents() =~= Map::<Seq<char>, Seq<u8>>::empty());
        s
    }

    /// The position of the entry with key `key`, if any.
    fn position(&self, key: &str) -> (r: Option<usize>)
        ensures
            match r {
                Some(i) => i < self.entries@.len() && self.entries@[i as int].0@ == key@,
                None => forall|j: int|
                    0 <= j < self.entries@.len() ==> #[trigger] self.entries@[j].0@ != key@,
            },
    {
        let mut i: usize = 0;
        while i < self.entries.len()
            invariant
                i <= self.entries@.len(),
                forall|j: int| 0 <= j < i ==> #[trigger] self.entries@[j].0@ != key@,
            decreases self.entries.len() - i,
        {
            if str_eq(self.entries[i].0.as_str(), key) {
                return Some(i);
            }
            i = i + 1;
        }
        None
    }

    /// The value stored under `key`.
    pub fn get(&self, key: &str) -> (r: Option<Vec<u8>>)
        ensures
            match r {
                Some(v) => self.contents().contains_key(key@) && self.contents()[key@] == v@,
                None => !self.contents().contains_key(key@),
            },
    {
        proof {
            use_type_invariant(self);
        }
        match self.position(key) {
            Some(i) => {
                proof {
                    lemma_entries_map_at(self.entries@, i as int);
                }
                Some(vstd::slice::slice_to_vec(self.entries[i].1.as_slice()))
            },
            None => None,
        }
    }

    /// Stores `value` under `key`, replacing any earlier value.
    pub fn insert(&mut self, key: &str, value: &[u8])
        ensures
            final(self).contents() == old(self).contents().insert(key@, value@),
    {
        proof {
            use_type_invariant(&*self);
        }
        let ghost before = self.entries@;
        let k = key.to_owned();
        let v = vstd::slice::slice_to_vec(value);
        match self.position(key) {
            Some(i) => {
                proof {
                    lemma_update(before, i as int, (k, v));
                }
                let mut entries: Vec<(String, Vec<u8>)> = Vec::new();
                std::mem::swap(&mut entries, &mut self.entries);
                entries.set(i, (k, v));
                self.entries = entries;
            },
            None => {
                proof {
                    lemma_push(before, (k, v));
                }
                let mut entries: Vec<(String, Vec<u8>)> = Vec::new();
                std::mem::swap(&mut entries, &mut self.entries);
                entries.push((k, v));
                self.entries = entries;
            },
        }
    }

    /// Removes the entry stored under `key`, if any.
    pub fn remove(&mut self, key: &str)
        ensures
            final(self).contents() == old(self).contents().remove(key@),
    {
        proof {
            use_type_invariant(&*self);
        }
        let ghost before = self.entries@;
        match self.position(key) {
            Some(i) => {
                proof {
                    lemma_remove(before, i as int);
                }
                let mut entries: Vec<(String, Vec<u8>)> = Vec::new();
                std::mem::swap(&mut entries, &mut self.entries);
                let _ = entries.remove(i);
                self.entries = entries;
            },
            None => {
                assert(self.contents() =~= self.contents().remove(key@));
            },
        }
    }
}

} // verus!
