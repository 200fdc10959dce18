use crate::address::Address;
use vstd::prelude::*;

verus! {

/// Whether some entry of `entries` is filed under `key`.
pub open spec fn has_key<V>(entries: Seq<(Address, V)>, key: Address) -> bool {
    exists|i: int| 0 <= i < entries.len() && (#[trigger] entries[i]).0 == key
}

/// The position of an entry of `entries` filed under `key`.
pub open spec fn position_of<V>(entries: Seq<(Address, V)>, key: Address) -> int {
    choose|i: int| 0 <= i < entries.len() && (#[trigger] entries[i]).0 == key
}

/// Whether no two entries of `entries` are filed under the same address.
pub open spec fn distinct_keys<V>(entries: Seq<(Address, V)>) -> bool {
    forall|i: int, j: int|
        0 <= i < j < entries.len() ==> (#[trigger] entries[i]).0 != (#[trigger] entries[j]).0
}

/// The map that `entries` spell out.
pub open spec fn map_of<V>(entries: Seq<(Address, V)>) -> Map<Address, V> {
    Map::new(
        |key: Address| has_key(entries, key),
        |key: Address| entries[position_of(entries, key)].1,
    )
}

/// In a list without repeated keys, what is filed at position `i` is what the
/// map holds for that position's key.
pub proof fn lemma_map_of_entry<V>(entries: Seq<(Address, V)>, i: int)
    requires
        distinct_keys(entries),
        0 <= i < entries.len(),
    ensures
        map_of(entries).contains_key(entries[i].0),
        map_of(entries)[entries[i].0] == entries[i].1,
{
    let key = entries[i].0;
    let p = position_of(entries, key);
    assert(0 <= p < entries.len() && entries[p].0 == key);
    assert(p == i);
}

/// A finite map keyed by address: at most one value is filed under each.
pub struct AddressMap<V> {
    entries: Vec<(Address, V)>,
}

impl<V> View for AddressMap<V> {
    type V = Map<Address, V>;

    closed spec fn view(&self) -> Map<Address, V> {
        map_of(self.entries@)
    }
}

impl<V> AddressMap<V> {
    #[verifier::type_invariant]
    spec fn well_formed(self) -> bool {
        distinct_keys(self.entries@)
    }

    /// The map that holds nothing.
    pub fn new() -> (map: AddressMap<V>)
        ensures
            map@ == Map::<Address, V>::empty(),
    {
        let map = AddressMap { entries: Vec::new() };
        assert(map@ =~= Map::<Address, V>::empty());
        map
    }

    /// Where `key` is filed, if anywhere.
    fn position(&self, key: &Address) -> (found: Option<usize>)
        ensures
            match found {
                Some(i) => i < self.entries@.len() && self.entries@[i as int].0 == *key,
                None => !has_key(self.entries@, *key),
            },
    {
        let mut i: usize = 0;
        while i < self.entries.len()
            invariant
                i <= self.entries@.len(),
                forall|j: int| 0 <= j < i ==> (#[trigger] self.entries@[j]).0 != *key,
            decreases self.entries@.len() - i,
        {
            if self.entries[i].0 == *key {
                return Some(i);
            }
            i += 1;
        }
        None
    }

    /// The value filed under `key`, if there is one.
    pub fn get(&self, key: &Address) -> (value: Option<&V>)
        ensures
            match value {
                Some(found) => self@.contains_key(*key) && self@[*key] == *found,
                None => !self@.contains_key(*key),
            },
    {
        proof {
            use_type_invariant(self);
        }
        match self.position(key) {
            Some(i) => {
                proof {
                    lemma_map_of_entry(self.entries@, i as int);
                }
                Some(&self.entries[i].1)
            },
            None => None,
        }
    }

    /// Whether a value is filed under `key`.
    pub fn contains(&self, key: &Address) -> (present: bool)
        ensures
            present == self@.contains_key(*key),
    {
        self.position(key).is_some()
    }

    /// Files `value` under `key`, in place of what was filed there before.
    pub fn insert(&mut self, key: Address, value: V)
        ensures
            final(self)@ == old(self)@.insert(key, value),
    {
        proof {
            use_type_invariant(&*self);
        }
        let ghost before = self.entries@;
        let found = self.position(&key);
        let mut entries: Vec<(Address, V)> = Vec::new();
        core::mem::swap(&mut self.entries, &mut entries);
        match found {
            Some(i) => {
                entries[i] = (key, value);
            },
            None => {
                entries.push((key, value));
            },
        }
        proof {
            let after = entries@;
            assert(distinct_keys(after));
            assert forall|k: Address| #[trigger] has_key(after, k) == (k == key || has_key(before, k)) by {
                if has_key(after, k) {
                    let p = position_of(after, k);
                    if k != key {
                        assert(before[p].0 == k);
                    }
                }
                if has_key(before, k) {
                    let p = position_of(before, k);
                    assert(after[p].0 == k);
                }
                if k == key {
                    if has_key(before, key) {
                        let p = position_of(before, key);
                        assert(after[p].0 == key);
                    } else {
                        assert(after[after.len() - 1].0 == key);
                    }
                }
            }
            assert forall|k: Address| has_key(after, k) implies #[trigger] map_of(after)[k] == (if k
                == key {
                value
            } else {
                map_of(before)[k]
            }) by {
                let p = position_of(after, k);
                lemma_map_of_entry(after, p);
                if k != key {
                    assert(before[p].0 == k);
                    lemma_map_of_entry(before, p);
                }
            }
            assert(map_of(after) =~= map_of(before).insert(key, value));
        }
        self.entries = entries;
    }

    /// Takes out what is filed under `key`, and returns it.
    pub fn remove(&mut self, key: &Address) -> (removed: Option<V>)
        ensures
            final(self)@ == old(self)@.remove(*key),
            removed == (if old(self)@.contains_key(*key) {
                Some(old(self)@[*key])
            } else {
                None
            }),
    {
        proof {
            use_type_invariant(&*self);
        }
        let ghost before = self.entries@;
        match self.position(key) {
            Some(i) => {
                proof {
                    lemma_map_of_entry(before, i as int);
                }
                let mut entries: Vec<(Address, V)> = Vec::new();
                core::mem::swap(&mut self.entries, &mut entries);
                let entry = entries.swap_remove(i);
                proof {
                    let after = entries@;
                    let last = before.len() - 1;
                    assert(distinct_keys(after));
                    assert forall|k: Address| #[trigger]
                        has_key(after, k) == (k != *key && has_key(before, k)) by {
                        if has_key(after, k) {
                            let p = position_of(after, k);
                            if p == i {
                                assert(before[last].0 == k);
                            } else {
                                assert(before[p].0 == k);
                            }
                        }
                        if k != *key && has_key(before, k) {
                            let p = position_of(before, k);
                            if p == last {
                                assert(after[i as int].0 == k);
                            } else {
                                assert(after[p].0 == k);
                            }
                        }
                    }
                    assert forall|k: Address| has_key(after, k) implies #[trigger] map_of(after)[k]
                        == map_of(before)[k] by {
                        let p = position_of(after, k);
                        lemma_map_of_entry(after, p);
                        if p == i {
                            lemma_map_of_entry(before, last);
                        } else {
                            lemma_map_of_entry(before, p);
                        }
                    }
                    assert(map_of(after) =~= map_of(before).remove(*key));
                }
                self.entries = entries;
                Some(entry.1)
            },
            None => {
                assert(map_of(before) =~= map_of(before).remove(*key));
                None
            },
        }
    }
}

} // verus!
