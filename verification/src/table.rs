//! A small table keyed by strings, in which a key stands at most once. The
//! session keeps its pending requests and its registered callbacks in one each.

use crate::text::str_eq;
use vstd::prelude::*;

verus! {

/// A table from strings to values of `T`. Its model is a map.
pub struct KeyedTable<T> {
    entries: Vec<(String, T)>,
}

/// The map that a list of entries stands for: each key of the list, with the
/// value of an entry of that key.
pub open spec fn entries_map<T>(entries: Seq<(String, T)>) -> Map<Seq<char>, T> {
    Map::new(
        |k: Seq<char>| exists|i: int| 0 <= i < entries.len() && entries[i].0@ == k,
        |k: Seq<char>| entries[choose|i: int| 0 <= i < entries.len() && entries[i].0@ == k].1,
    )
}

/// Whether no key stands twice in a list of entries.
pub open spec fn distinct_keys<T>(entries: Seq<(String, T)>) -> bool {
    forall|i: int, j: int| 0 <= i < j < entries.len() ==> entries[i].0@ != entries[j].0@
}

/// A list of entries without a repeated key holds every key of its map
/// once, with the value of the map: one entry, and no second.
pub proof fn lemma_entries_hold_each_key_once<T>(entries: Seq<(String, T)>, key: Seq<char>)
    requires
        distinct_keys(entries),
        entries_map(entries).contains_key(key),
    ensures
        exists|i: int|
            0 <= i < entries.len() && (#[trigger] entries[i]).0@ == key && entries[i].1
                == entries_map(entries)[key],
        forall|i: int, j: int|
            0 <= i < entries.len() && 0 <= j < entries.len() && (#[trigger] entries[i]).0@ == key
                && (#[trigger] entries[j]).0@ == key ==> i == j,
{
    let w = choose|i: int| 0 <= i < entries.len() && entries[i].0@ == key;
    assert(entries[w].0@ == key);
}

impl<T> View for KeyedTable<T> {
    type V = Map<Seq<char>, T>;

    closed spec fn view(&self) -> Map<Seq<char>, T> {
        entries_map(self.entries@)
    }
}

impl<T> KeyedTable<T> {
    #[verifier::type_invariant]
    spec fn well_formed(self) -> bool {
        distinct_keys(self.entries@)
    }

    /// The empty table.
    pub fn new() -> (r: Self)
        ensures
            r@ == Map::<Seq<char>, T>::empty(),
    {
        let r = KeyedTable { entries: Vec::new() };
        proof {
            assert(r@ =~= Map::<Seq<char>, T>::empty());
        }
        r
    }

    /// Where `key` stands among the entries.
    fn position(&self, key: &str) -> (r: Option<usize>)
        ensures
            match r {
                Some(i) => i < self.entries@.len() && self.entries@[i as int].0@ == key@
                    && self@.contains_key(key@) && self@[key@] == self.entries@[i as int].1,
                None => !self@.contains_key(key@) && forall|i: int|
                    0 <= i < self.entries@.len() ==> self.entries@[i].0@ != key@,
            },
    {
        proof {
            use_type_invariant(self);
        }
        let mut i: usize = 0;
        while i < self.entries.len()
            invariant
                0 <= i <= self.entries@.len(),
                forall|k: int| 0 <= k < i ==> self.entries@[k].0@ != key@,
            decreases self.entries@.len() - i,
        {
            if str_eq(self.entries[i].0.as_str(), key) {
                proof {
                    use_type_invariant(self);
                    let w = choose|w: int|
                        0 <= w < self.entries@.len() && self.entries@[w].0@ == key@;
                    assert(w == i);
                }
                return Some(i);
            }
            i += 1;
        }
        None
    }

    /// Whether `key` stands in the table.
    pub fn contains_key(&self, key: &str) -> (r: bool)
        ensures
            r == self@.contains_key(key@),
    {
        self.position(key).is_some()
    }

    /// The value under `key`.
    pub fn get(&self, key: &str) -> (r: Option<&T>)
        ensures
            match r {
                Some(v) => self@.contains_key(key@) && self@[key@] == *v,
                None => !self@.contains_key(key@),
            },
    {
        match self.position(key) {
            Some(i) => Some(&self.entries[i].1),
            None => None,
        }
    }

    /// Whether the table holds nothing.
    pub fn is_empty(&self) -> (r: bool)
        ensures
            r == (self@ == Map::<Seq<char>, T>::empty()),
    {
        let r = self.entries.len() == 0;
        proof {
            if r {
                assert(self@ =~= Map::<Seq<char>, T>::empty());
            } else {
                assert(self@.contains_key(self.entries@[0].0@));
            }
        }
        r
    }

    /// Takes the value under `key` out of the table.
    pub fn remove(&mut self, key: &str) -> (r: Option<T>)
        ensures
            final(self)@ == old(self)@.remove(key@),
            r == if old(self)@.contains_key(key@) {
                Some(old(self)@[key@])
            } else {
                None
            },
    {
        proof {
            use_type_invariant(&*self);
        }
        match self.position(key) {
            Some(i) => {
                let ghost before = self.entries@;
                let ghost old_map = self@;
                let mut entries: Vec<(String, T)> = Vec::new();
                std::mem::swap(&mut self.entries, &mut entries);
                let entry = entries.remove(i);
                proof {
                    assert(entries@ =~= before.remove(i as int));
                }
                self.entries = entries;
                proof {
                    let after = self.entries@;
                    assert(after =~= before.remove(i as int));
                    assert forall|k: Seq<char>| #[trigger]
                        self@.contains_key(k) <==> old_map.remove(key@).contains_key(k) by {
                        if self@.contains_key(k) {
                            let w = choose|w: int| 0 <= w < after.len() && after[w].0@ == k;
                            let u = if w < i {
                                w
                            } else {
                                w + 1
                            };
                            assert(before[u].0@ == k);
                        }
                        if old_map.remove(key@).contains_key(k) {
                            let u = choose|u: int| 0 <= u < before.len() && before[u].0@ == k;
                            assert(u != i);
                            let w = if u < i {
                                u
                            } else {
                                u - 1
                            };
                            assert(after[w].0@ == k);
                        }
                    }
                    assert forall|k: Seq<char>| #[trigger] self@.contains_key(k) implies self@[k]
                        == old_map.remove(key@)[k] by {
                        let w = choose|w: int| 0 <= w < after.len() && after[w].0@ == k;
                        let u = choose|u: int| 0 <= u < before.len() && before[u].0@ == k;
                        let w2 = if w < i {
                            w
                        } else {
                            w + 1
                        };
                        assert(before[w2].0@ == k);
                        assert(w2 == u);
                    }
                    assert(self@ =~= old_map.remove(key@));
                }
                Some(entry.1)
            },
            None => {
                proof {
                    assert(self@ =~= self@.remove(key@));
                }
                None
            },
        }
    }

    /// Puts `value` under `key`, in place of what stood there; returns what
    /// stood there.
    pub fn insert(&mut self, key: String, value: T) -> (r: Option<T>)
        ensures
            final(self)@ == old(self)@.insert(key@, value),
            r == if old(self)@.contains_key(key@) {
                Some(old(self)@[key@])
            } else {
                None
            },
    {
        let ghost old_map = self@;
        let previous = self.remove(key.as_str());
        proof {
            use_type_invariant(&*self);
        }
        let ghost before = self.entries@;
        let ghost mid_map = self@;
        proof {
            assert forall|i: int| 0 <= i < before.len() implies before[i].0@ != key@ by {
                if before[i].0@ == key@ {
                    assert(mid_map.contains_key(key@));
                }
            }
        }
        let mut entries: Vec<(String, T)> = Vec::new();
        std::mem::swap(&mut self.entries, &mut entries);
        entries.push((key, value));
        self.entries = entries;
        proof {
            let after = self.entries@;
            assert(after =~= before.push((key, value)));
            assert forall|k: Seq<char>| #[trigger]
                self@.contains_key(k) <==> mid_map.insert(key@, value).contains_key(k) by {
                if self@.contains_key(k) {
                    let w = choose|w: int| 0 <= w < after.len() && after[w].0@ == k;
                    if w < before.len() {
                        assert(before[w].0@ == k);
                    }
                }
                if mid_map.insert(key@, value).contains_key(k) {
                    if k == key@ {
                        assert(after[before.len() as int].0@ == k);
                    } else {
                        let u = choose|u: int| 0 <= u < before.len() && before[u].0@ == k;
                        assert(after[u].0@ == k);
                    }
                }
            }
            assert forall|k: Seq<char>| #[trigger] self@.contains_key(k) implies self@[k]
                == mid_map.insert(key@, value)[k] by {
                let w = choose|w: int| 0 <= w < after.len() && after[w].0@ == k;
                if k == key@ {
                    assert(after[before.len() as int].0@ == k);
                    assert(w == before.len());
                } else {
                    let u = choose|u: int| 0 <= u < before.len() && before[u].0@ == k;
                    assert(after[u].0@ == k);
                    assert(w == u);
                }
            }
            assert(self@ =~= mid_map.insert(key@, value));
            assert(old_map.remove(key@).insert(key@, value) =~= old_map.insert(key@, value));
        }
        previous
    }

    /// Empties the table and hands out what it held: each key once, with its value.
    pub fn take_all(&mut self) -> (r: Vec<(String, T)>)
        ensures
            final(self)@ == Map::<Seq<char>, T>::empty(),
            distinct_keys(r@),
            entries_map(r@) == old(self)@,
    {
        proof {
            use_type_invariant(&*self);
        }
        let mut out: Vec<(String, T)> = Vec::new();
        std::mem::swap(&mut self.entries, &mut out);
        proof {
            assert(self@ =~= Map::<Seq<char>, T>::empty());
        }
        out
    }
}

} // verus!
