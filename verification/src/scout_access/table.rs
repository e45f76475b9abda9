//! A table of stored entries.
use vstd::prelude::*;

use crate::scout_access::types::Address;

verus! {

/// What an entry of a `Table` is found by.
pub trait Key: View + Sized {
    /// Whether two keys are the same.
    fn same(&self, other: &Self) -> (b: bool)
        ensures
            b == (self@ == other@),
    ;
}

impl Key for Address {
    fn same(&self, other: &Self) -> (b: bool) {
        self.strkey == other.strkey
    }
}

impl Key for u64 {
    fn same(&self, other: &Self) -> (b: bool) {
        *self == *other
    }
}

impl Key for (u64, u32) {
    fn same(&self, other: &Self) -> (b: bool) {
        self.0 == other.0 && self.1 == other.1
    }
}

impl Key for (u64, Address) {
    fn same(&self, other: &Self) -> (b: bool) {
        self.0 == other.0 && self.1.same(&other.1)
    }
}

/// Entries by their keys, at most one for each key.
pub struct Table<K: Key, V> {
    entries: Vec<(K, V)>,
}

impl<K: Key, V> Table<K, V> {
    /// No key occurs twice.
    #[verifier::type_invariant]
    spec fn distinct(self) -> bool {
        forall|i: int, j: int|
            0 <= i < j < self.entries@.len() ==> (#[trigger] self.entries@[i]).0@ != (
            #[trigger] self.entries@[j]).0@
    }

    /// Whether the entry at position `i` has the key `k`.
    spec fn has_at(self, k: K::V, i: int) -> bool {
        0 <= i < self.entries@.len() && self.entries@[i].0@ == k
    }

    /// The position of the entry with the key `k`.
    spec fn position(self, k: K::V) -> int {
        choose|i: int| self.has_at(k, i)
    }
}

impl<K: Key, V> View for Table<K, V> {
    type V = Map<K::V, V>;

    closed spec fn view(&self) -> Map<K::V, V> {
        Map::new(
            |k: K::V| exists|i: int| self.has_at(k, i),
            |k: K::V| self.entries@[self.position(k)].1,
        )
    }
}

impl<K: Key, V> Table<K, V> {
    /// A table without entries.
    pub fn new() -> (table: Self)
        ensures
            table@ == Map::<K::V, V>::empty(),
    {
        let table = Table { entries: Vec::new() };
        assert(table@ =~= Map::<K::V, V>::empty());
        table
    }

    /// Where the entry with the given key is, or the number of entries.
    fn find(&self, key: &K) -> (at: usize)
        ensures
            at <= self.entries@.len(),
            at < self.entries@.len() ==> self.entries@[at as int].0@ == key@,
            at == self.entries@.len() ==> forall|i: int| !self.has_at(key@, i),
    {
        let mut at: usize = 0;
        while at < self.entries.len()
            invariant
                at <= self.entries@.len(),
                forall|i: int| 0 <= i < at ==> (#[trigger] self.entries@[i]).0@ != key@,
            decreases self.entries@.len() - at,
        {
            if self.entries[at].0.same(key) {
                return at;
            }
            at += 1;
        }
        at
    }

    /// The entry stored under the given key.
    pub fn get(&self, key: &K) -> (found: Option<&V>)
        ensures
            match found {
                Some(value) => self@.contains_key(key@) && self@[key@] == *value,
                None => !self@.contains_key(key@),
            },
    {
        proof {
            use_type_invariant(self);
        }
        let at: usize = self.find(key);
        if at < self.entries.len() {
            proof {
                assert(self.has_at(key@, at as int));
                assert(self.has_at(key@, self.position(key@)));
            }
            Some(&self.entries[at].1)
        } else {
            None
        }
    }

    /// Whether an entry is stored under the given key.
    pub fn has(&self, key: &K) -> (b: bool)
        ensures
            b == self@.contains_key(key@),
    {
        self.get(key).is_some()
    }

    /// Stores an entry under the given key, in place of the one that was there.
    pub fn set(&mut self, key: K, value: V)
        ensures
            final(self)@ == old(self)@.insert(key@, value),
    {
        proof {
            use_type_invariant(&*self);
        }
        let ghost before = *self;
        let at: usize = self.find(&key);
        let mut entries: Vec<(K, V)> = Vec::new();
        std::mem::swap(&mut entries, &mut self.entries);
        let ghost k = key@;
        let ghost v = value;
        if at < entries.len() {
            entries.set(at, (key, value));
        } else {
            entries.push((key, value));
        }
        proof {
            assert forall|i: int, j: int| 0 <= i < j < entries@.len() implies (
            #[trigger] entries@[i]).0@ != (#[trigger] entries@[j]).0@ by {
                if at == before.entries@.len() && j == at {
                    assert(!before.has_at(k, i));
                }
                assert(entries@[i].0@ == (if i == at { k } else { before.entries@[i].0@ }));
                assert(entries@[j].0@ == (if j == at { k } else { before.entries@[j].0@ }));
            }
        }
        self.entries = entries;
        proof {
            let after = *self;
            assert(after.has_at(k, at as int));
            assert forall|q: K::V| #[trigger] after@.contains_key(q) == before@.insert(
                k,
                v,
            ).contains_key(q) by {
                if q != k {
                    if after@.contains_key(q) {
                        let i = choose|i: int| after.has_at(q, i);
                        assert(before.has_at(q, i));
                    }
                    if before@.contains_key(q) {
                        let i = choose|i: int| before.has_at(q, i);
                        assert(after.has_at(q, i));
                    }
                }
            }
            assert forall|q: K::V| #[trigger] after@.contains_key(q) implies after@[q]
                == before@.insert(k, v)[q] by {
                let i = after.position(q);
                assert(after.has_at(q, i));
                if q != k {
                    assert(before.has_at(q, i));
                    assert(before.has_at(q, before.position(q)));
                }
            }
            assert(after@ =~= before@.insert(k, v));
        }
    }
}

} // verus!
