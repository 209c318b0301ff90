//! A finite map kept as a list of entries with distinct keys.

use vstd::prelude::*;
use crate::types::Key;

verus! {

#[derive(Debug)]
struct Entry<K, V> {
    key: K,
    value: V,
}

/// A finite map from keys to values. Its view is the mathematical map from
/// the views of its keys to the views of their values.
#[derive(Debug)]
pub struct Table<K: Key, V: View> {
    entries: Vec<Entry<K, V>>,
}

impl<K: Key, V: View> Table<K, V> {
    /// Whether the entry at index `i` is the one of key `k`.
    spec fn holds(&self, k: K::V, i: int) -> bool {
        0 <= i < self.entries.len() && self.entries[i].key@ == k
    }

    /// The index of the entry of key `k`, where there is one.
    spec fn index_of(&self, k: K::V) -> int {
        choose|i: int| self.holds(k, i)
    }

    /// No key is held twice.
    pub closed spec fn wf(&self) -> bool {
        forall|i: int, j: int| 0 <= i < j ==> !self.holds(self.entries[i].key@, j)
    }

    /// The map that the table stands for.
    pub closed spec fn view(&self) -> Map<K::V, V::V> {
        Map::new(
            |k: K::V| exists|i: int| self.holds(k, i),
            |k: K::V| self.entries[self.index_of(k)].value@,
        )
    }

    /// In a well-formed table, the view holds under the key of each entry
    /// the value of that entry.
    proof fn lemma_entry(&self, i: int)
        requires
            self.wf(),
            0 <= i < self.entries.len(),
        ensures
            self@.contains_key(self.entries[i].key@),
            self@[self.entries[i].key@] == self.entries[i].value@,
            self.index_of(self.entries[i].key@) == i,
    {
        let k = self.entries[i].key@;
        assert(self.holds(k, i));
        let j = self.index_of(k);
        assert(self.holds(k, j));
        if j < i {
            assert(self.holds(self.entries[j].key@, i));
        } else if i < j {
            assert(self.holds(self.entries[i].key@, j));
        }
    }

    /// The empty table.
    pub fn new() -> (table: Self)
        ensures
            table.wf(),
            table@ == Map::<K::V, V::V>::empty(),
    {
        let table = Table { entries: Vec::new() };
        assert(table@ =~= Map::<K::V, V::V>::empty());
        table
    }

    /// The index of the entry of `key`, if there is one.
    fn position(&self, key: &K) -> (found: Option<usize>)
        ensures
            match found {
                Some(i) => self.holds(key@, i as int),
                None => forall|i: int| !self.holds(key@, i),
            },
    {
        let mut i: usize = 0;
        while i < self.entries.len()
            invariant
                i <= self.entries.len(),
                forall|j: int| 0 <= j < i ==> !self.holds(key@, j),
            decreases self.entries.len() - i,
        {
            if self.entries[i].key.same(key) {
                return Some(i);
            }
            i = i + 1;
        }
        None
    }

    /// The value stored under `key`, if there is one.
    pub fn get(&self, key: &K) -> (value: Option<&V>)
        requires
            self.wf(),
        ensures
            match value {
                Some(v) => self@.contains_key(key@) && v@ == self@[key@],
                None => !self@.contains_key(key@),
            },
    {
        match self.position(key) {
            Some(i) => {
                proof {
                    self.lemma_entry(i as int);
                }
                Some(&self.entries[i].value)
            },
            None => None,
        }
    }

    /// Whether a value is stored under `key`.
    pub fn contains_key(&self, key: &K) -> (present: bool)
        requires
            self.wf(),
        ensures
            present == self@.contains_key(key@),
    {
        self.get(key).is_some()
    }

    /// Stores `value` under `key`, in place of the value that was stored
    /// under it, if there was one.
    pub fn insert(&mut self, key: K, value: V)
        requires
            old(self).wf(),
        ensures
            final(self).wf(),
            final(self)@ == old(self)@.insert(key@, value@),
    {
        let ghost before = *self;
        let ghost at: int;
        match self.position(&key) {
            Some(i) => {
                self.entries.set(i, Entry { key, value });
                proof {
                    at = i as int;
                }
            },
            None => {
                self.entries.push(Entry { key, value });
                proof {
                    at = before.entries.len() as int;
                }
            },
        }
        proof {
            // Every entry but the one at `at` is as it was, and no other
            // entry has the key.
            assert forall|i: int, j: int| 0 <= i < j implies !self.holds(
                self.entries[i].key@,
                j,
            ) by {
                if self.holds(self.entries[i].key@, j) {
                    if i == at {
                        assert(before.holds(key@, j));
                    } else if j == at {
                        assert(before.holds(key@, i));
                    } else {
                        assert(before.holds(before.entries[i].key@, j));
                    }
                }
            }
            assert forall|k: K::V| #[trigger]
                self@.contains_key(k) == before@.insert(key@, value@).contains_key(k) by {
                if before@.contains_key(k) {
                    let j = before.index_of(k);
                    assert(self.holds(k, j) || k == key@);
                }
                if self@.contains_key(k) && k != key@ {
                    assert(before.holds(k, self.index_of(k)));
                }
                assert(self.holds(key@, at));
            }
            assert forall|k: K::V| #[trigger] self@.contains_key(k) implies self@[k]
                == before@.insert(key@, value@)[k] by {
                let j = self.index_of(k);
                self.lemma_entry(j);
                if j != at {
                    before.lemma_entry(j);
                }
            }
            assert(self@ =~= before@.insert(key@, value@));
        }
    }
}

} // verus!
