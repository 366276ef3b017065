//! A map keyed by ids that refuses silent overwrites and removals of missing keys.
use vstd::prelude::*;

use crate::ids::NodeKey;

verus! {

/// Why a map operation was refused.
#[derive(Debug, Clone, Copy, PartialEq, Eq, Structural)]
pub enum MapError {
    /// Insertion failed: the key already exists in the map.
    KeyExists,
    /// The key to remove could not be found.
    KeyMissing,
}

/// In a sequence without repeated items, the position of an item that occurs is unique.
pub proof fn lemma_index_of_unique<T>(s: Seq<T>, i: int)
    requires
        s.no_duplicates(),
        0 <= i < s.len(),
    ensures
        s.index_of(s[i]) == i,
{
    assert(s.contains(s[i]));
}

/// What a read gives back after a write: the value written under the key, while every other key
/// keeps its value.
pub proof fn law_get_after_insert<Key, Value>(m: Map<Key, Value>, key: Key, value: Value, other: Key)
    requires
        other != key,
    ensures
        m.insert(key, value).contains_key(key),
        m.insert(key, value)[key] == value,
        m.insert(key, value).contains_key(other) == m.contains_key(other),
        m.contains_key(other) ==> m.insert(key, value)[other] == m[other],
{
}

/// A map from ids to values.
#[derive(Debug)]
#[verifier::reject_recursive_types(Key)]
pub struct IdMap<Key, Value> {
    keys: Vec<Key>,
    values: Vec<Value>,
}

/// The map that pairs each key of `keys` with the value at the same position.
pub open spec fn pairs_map<Key, Value>(keys: Seq<Key>, values: Seq<Value>) -> Map<Key, Value> {
    Map::new(|k: Key| keys.contains(k), |k: Key| values[keys.index_of(k)])
}

impl<Key, Value> View for IdMap<Key, Value> {
    type V = Map<Key, Value>;

    closed spec fn view(&self) -> Map<Key, Value> {
        pairs_map(self.keys@, self.values@)
    }
}

impl<Key: NodeKey, Value> IdMap<Key, Value> {
    pub closed spec fn wf(&self) -> bool {
        &&& self.keys@.len() == self.values@.len()
        &&& self.keys@.no_duplicates()
    }

    /// An empty map.
    pub fn new() -> (m: Self)
        ensures
            m.wf(),
            m@ == Map::<Key, Value>::empty(),
    {
        let m = IdMap { keys: Vec::new(), values: Vec::new() };
        assert(m@ =~= Map::<Key, Value>::empty());
        m
    }

    fn find(&self, key: &Key) -> (r: Option<usize>)
        requires
            self.wf(),
        ensures
            match r {
                Some(i) => i < self.keys@.len() && self.keys@[i as int] == *key && self@.contains_key(*key)
                    && self.keys@.index_of(*key) == i,
                None => !self@.contains_key(*key),
            },
    {
        let mut i: usize = 0;
        while i < self.keys.len()
            invariant
                self.wf(),
                i <= self.keys@.len(),
                forall|j: int| 0 <= j < i ==> self.keys@[j] != *key,
            decreases self.keys@.len() - i,
        {
            if self.keys[i].same(key) {
                proof {
                    lemma_index_of_unique(self.keys@, i as int);
                }
                return Some(i);
            }
            i += 1;
        }
        None
    }

    /// Insert a new key.
    ///
    /// Refused when the key exists already; the value is stored either way.
    pub fn insert(&mut self, key: Key, value: Value) -> (r: Result<(), MapError>)
        requires
            old(self).wf(),
        ensures
            final(self).wf(),
            final(self)@ == old(self)@.insert(key, value),
            r is Err <==> old(self)@.contains_key(key),
            r is Err ==> r == Err::<(), MapError>(MapError::KeyExists),
    {
        match self.find(&key) {
            Some(i) => {
                self.values.set(i, value);
                proof {
                    assert forall|k: Key| #[trigger] self.keys@.contains(k) && k != key implies
                        self.values@[self.keys@.index_of(k)] == old(self).values@[old(self).keys@.index_of(k)] by {
                        let j = self.keys@.index_of(k);
                        assert(self.keys@[j] == k);
                    }
                    assert(self@ =~= old(self)@.insert(key, value));
                }
                Err(MapError::KeyExists)
            },
            None => {
                self.keys.push(key);
                self.values.push(value);
                proof {
                    let n = old(self).keys@.len() as int;
                    assert forall|a: int, b: int| 0 <= a < self.keys@.len() && 0 <= b < self.keys@.len() && a != b
                        implies self.keys@[a] != self.keys@[b] by {
                        if a == n {
                            assert(!old(self).keys@.contains(key));
                            assert(old(self).keys@[b] == self.keys@[b]);
                        } else if b == n {
                            assert(!old(self).keys@.contains(key));
                            assert(old(self).keys@[a] == self.keys@[a]);
                        }
                    }
                    lemma_index_of_unique(self.keys@, n);
                    assert forall|k: Key| #[trigger] self.keys@.contains(k) && k != key implies
                        old(self).keys@.contains(k) && self.values@[self.keys@.index_of(k)]
                            == old(self).values@[old(self).keys@.index_of(k)] by {
                        let j = self.keys@.index_of(k);
                        assert(self.keys@[j] == k);
                        assert(j != n);
                        assert(old(self).keys@[j] == k);
                        lemma_index_of_unique(old(self).keys@, j);
                    }
                    assert forall|k: Key| old(self).keys@.contains(k) implies self.keys@.contains(k) by {
                        let j = old(self).keys@.index_of(k);
                        assert(self.keys@[j] == k);
                    }
                    assert(self@ =~= old(self)@.insert(key, value));
                }
                Ok(())
            },
        }
    }

    /// Insert a key or replace its value.
    pub fn insert_or_update(&mut self, key: Key, value: Value)
        requires
            old(self).wf(),
        ensures
            final(self).wf(),
            final(self)@ == old(self)@.insert(key, value),
    {
        let _ = self.insert(key, value);
    }

    /// Remove a key; refused when it is missing.
    pub fn remove(&mut self, key: &Key) -> (r: Result<(), MapError>)
        requires
            old(self).wf(),
        ensures
            final(self).wf(),
            final(self)@ == old(self)@.remove(*key),
            r is Err <==> !old(self)@.contains_key(*key),
            r is Err ==> r == Err::<(), MapError>(MapError::KeyMissing),
    {
        let i = match self.find(key) {
            Some(i) => i,
            None => {
                proof {
                    assert(self@ =~= old(self)@.remove(*key));
                }
                return Err(MapError::KeyMissing);
            },
        };
        let ghost pk = self.keys@;
        let ghost pv = self.values@;
        self.keys.swap_remove(i);
        self.values.swap_remove(i);
        proof {
            let last = pk.len() - 1;
            assert forall|j: int| 0 <= j < self.keys@.len() implies #[trigger] self.keys@[j] == pk[if j == i { last } else { j }]
                && self.values@[j] == pv[if j == i { last } else { j }] by {}
            assert forall|a: int, b: int|
                0 <= a < self.keys@.len() && 0 <= b < self.keys@.len() && a != b
                    implies self.keys@[a] != self.keys@[b] by {
                assert(self.keys@[a] == pk[if a == i { last } else { a }]);
                assert(self.keys@[b] == pk[if b == i { last } else { b }]);
            }
            assert forall|k: Key| #[trigger] self.keys@.contains(k) <==> pk.contains(k) && k != *key by {
                if self.keys@.contains(k) {
                    let j = self.keys@.index_of(k);
                    let oj = if j == i { last } else { j };
                    assert(pk[oj] == k);
                    assert(oj != i);
                }
                if pk.contains(k) && k != *key {
                    let oj = pk.index_of(k);
                    assert(oj != i);
                    if oj == last {
                        assert(self.keys@[i as int] == k);
                    } else {
                        assert(self.keys@[oj] == k);
                    }
                }
            }
            assert forall|k: Key| #[trigger] self.keys@.contains(k) implies
                self.values@[self.keys@.index_of(k)] == pv[pk.index_of(k)] by {
                let j = self.keys@.index_of(k);
                let oj = if j == i { last } else { j };
                assert(pk[oj] == k);
                lemma_index_of_unique(pk, oj);
            }
            assert(self@ =~= old(self)@.remove(*key));
        }
        Ok(())
    }

    pub fn contains_key(&self, key: &Key) -> (r: bool)
        requires
            self.wf(),
        ensures
            r == self@.contains_key(*key),
    {
        self.find(key).is_some()
    }

    pub fn get(&self, key: &Key) -> (r: Option<&Value>)
        requires
            self.wf(),
        ensures
            match r {
                Some(v) => self@.contains_key(*key) && self@[*key] == *v,
                None => !self@.contains_key(*key),
            },
    {
        match self.find(key) {
            Some(i) => Some(&self.values[i]),
            None => None,
        }
    }

    pub fn get_mut(&mut self, key: &Key) -> (r: Option<&mut Value>)
        requires
            old(self).wf(),
        ensures
            final(self).wf(),
            match r {
                Some(v) => old(self)@.contains_key(*key) && *v == old(self)@[*key]
                    && final(self)@ == old(self)@.insert(*key, *final(v)),
                None => !old(self)@.contains_key(*key) && final(self)@ == old(self)@,
            },
    {
        match self.find(key) {
            Some(i) => {
                let ghost pk = self.keys@;
                let r = &mut self.values[i];
                proof {
                    assert forall|k: Key| #[trigger] pk.contains(k) && k != *key implies
                        pk.index_of(k) != i by {
                        let j = pk.index_of(k);
                        assert(pk[j] == k);
                    }
                }
                Some(r)
            },
            None => None,
        }
    }

    /// The number of keys.
    pub fn len(&self) -> (r: usize)
        requires
            self.wf(),
        ensures
            r == self@.dom().len(),
    {
        proof {
            assert(self@.dom() =~= self.keys@.to_set());
            self.keys@.unique_seq_to_set();
        }
        self.keys.len()
    }

}

impl<Key: NodeKey, Value> Default for IdMap<Key, Value> {
    fn default() -> (m: Self)
        ensures
            m.wf(),
            m@ == Map::<Key, Value>::empty(),
    {
        Self::new()
    }
}

} // verus!
