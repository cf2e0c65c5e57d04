//! A map from texts to values that keeps its entries in the order in which
//! their keys were first inserted.

use vstd::prelude::*;

verus! {

/// A map keyed by text. No key occurs twice; inserting under a key that is
/// there replaces the value and leaves the key where it stood.
#[derive(Debug)]
pub struct TextMap<V> {
    entries: Vec<(String, V)>,
}

impl<V> TextMap<V> {
    #[verifier::type_invariant]
    spec fn no_key_twice(self) -> bool {
        forall|i: int, j: int|
            0 <= i < j < self.entries.len() ==> (#[trigger] self.entries[i]).0@ != (
            #[trigger] self.entries[j]).0@
    }

    /// The keys, in the order in which they were first inserted.
    pub closed spec fn keys(self) -> Seq<Seq<char>> {
        self.entries@.map_values(|e: (String, V)| e.0@)
    }

    /// The values, each at the position of its key.
    pub closed spec fn values(self) -> Seq<V> {
        self.entries@.map_values(|e: (String, V)| e.1)
    }

    /// What holds of the keys and values of every map.
    pub open spec fn well_formed(self) -> bool {
        &&& self.keys().len() == self.values().len()
        &&& forall|i: int, j: int|
            0 <= i < j < self.keys().len() ==> #[trigger] self.keys()[i] != #[trigger] self.keys()[j]
    }

    /// Where `key` stands, if it is there.
    pub open spec fn index_of(self, key: Seq<char>) -> int {
        self.keys().index_of(key)
    }

    /// The map as a mathematical map.
    pub open spec fn view(self) -> Map<Seq<char>, V> {
        Map::new(|k: Seq<char>| self.keys().contains(k), |k: Seq<char>| self.values()[self.index_of(k)])
    }

    /// An empty map.
    pub fn new() -> (map: TextMap<V>)
        ensures
            map.keys() == Seq::<Seq<char>>::empty(),
            map.values() == Seq::<V>::empty(),
            map@ == Map::<Seq<char>, V>::empty(),
            map.well_formed(),
    {
        TextMap { entries: Vec::new() }
    }

    /// The number of entries.
    pub fn len(&self) -> (n: usize)
        ensures
            n == self.keys().len(),
            self.well_formed(),
    {
        proof {
            use_type_invariant(self);
        }
        self.entries.len()
    }

    /// Whether the map has no entry.
    pub fn is_empty(&self) -> (r: bool)
        ensures
            r == (self.keys().len() == 0),
            r == (self@ == Map::<Seq<char>, V>::empty()),
            self.well_formed(),
    {
        proof {
            use_type_invariant(self);
            if self.entries.len() > 0 {
                assert(self@.contains_key(self.keys()[0]));
            } else {
                assert(self@ =~= Map::<Seq<char>, V>::empty());
            }
        }
        self.entries.len() == 0
    }

    /// The position of `key` among the keys.
    pub fn position(&self, key: &str) -> (found: Option<usize>)
        ensures
            self.well_formed(),
            match found {
                Some(i) => i < self.keys().len() && self.keys()[i as int] == key@ && self.index_of(
                    key@,
                ) == i,
                None => !self.keys().contains(key@),
            },
    {
        proof {
            use_type_invariant(self);
        }
        let wanted = key.to_owned();
        let mut i: usize = 0;
        while i < self.entries.len()
            invariant
                i <= self.entries.len(),
                wanted@ == key@,
                self.no_key_twice(),
                forall|j: int| 0 <= j < i ==> self.keys()[j] != key@,
            decreases self.entries.len() - i,
        {
            if self.entries[i].0 == wanted {
                return Some(i);
            }
            i += 1;
        }
        None
    }

    /// The value under `key`.
    pub fn get(&self, key: &str) -> (found: Option<&V>)
        ensures
            self.well_formed(),
            match found {
                Some(value) => self@.contains_key(key@) && *value == self@[key@],
                None => !self@.contains_key(key@),
            },
    {
        match self.position(key) {
            Some(i) => Some(&self.entries[i].1),
            None => None,
        }
    }

    /// The key at position `i`.
    pub fn key_at(&self, i: usize) -> (key: &String)
        requires
            i < self.keys().len(),
        ensures
            key@ == self.keys()[i as int],
    {
        &self.entries[i].0
    }

    /// The value at position `i`.
    pub fn value_at(&self, i: usize) -> (value: &V)
        requires
            i < self.keys().len(),
        ensures
            *value == self.values()[i as int],
            self.well_formed(),
            self@.contains_key(self.keys()[i as int]),
            self@[self.keys()[i as int]] == *value,
    {
        proof {
            use_type_invariant(self);
        }
        &self.entries[i].1
    }

    /// Puts `value` under `key`, in place of what was there.
    pub fn insert(&mut self, key: String, value: V)
        ensures
            final(self)@ == old(self)@.insert(key@, value),
            final(self).well_formed(),
            old(self).keys().contains(key@) ==> final(self).keys() == old(self).keys()
                && final(self).values() == old(self).values().update(
                old(self).index_of(key@),
                value,
            ),
            !old(self).keys().contains(key@) ==> final(self).keys() == old(self).keys().push(key@)
                && final(self).values() == old(self).values().push(value),
    {
        proof {
            use_type_invariant(&*self);
        }
        let found = self.position(key.as_str());
        let ghost k = key@;
        let ghost before = *self;
        assert(forall|x: int|
            0 <= x < before.entries.len() ==> before.keys()[x] == (#[trigger] before.entries[x]).0@);
        let mut entries: Vec<(String, V)> = Vec::new();
        std::mem::swap(&mut self.entries, &mut entries);
        match found {
            Some(i) => {
                entries.set(i, (key, value));
            },
            None => {
                entries.push((key, value));
            },
        }
        std::mem::swap(&mut self.entries, &mut entries);
        proof {
            match found {
                Some(i) => {
                    assert(self.keys() =~= before.keys());
                    assert(self.values() =~= before.values().update(i as int, value));
                },
                None => {
                    assert(self.keys() =~= before.keys().push(k));
                    assert(self.values() =~= before.values().push(value));
                },
            }
            lemma_insert_view(before, *self, k, value);
        }
    }
}

/// Each key of the mathematical map stands at a position of its own.
pub proof fn lemma_key_position<V>(map: TextMap<V>, key: Seq<char>)
    requires
        map.well_formed(),
        map@.contains_key(key),
    ensures
        0 <= map.index_of(key) < map.keys().len(),
        map.keys()[map.index_of(key)] == key,
        map@[key] == map.values()[map.index_of(key)],
{
}

/// A map has as many keys as entries.
pub proof fn lemma_key_count<V>(map: TextMap<V>)
    requires
        map.well_formed(),
    ensures
        map@.dom().finite(),
        map@.dom().len() == map.keys().len(),
{
    map.keys().unique_seq_to_set();
}

/// The mathematical map follows the keys and values through an insertion.
proof fn lemma_insert_view<V>(before: TextMap<V>, after: TextMap<V>, key: Seq<char>, value: V)
    requires
        before.well_formed(),
        after.well_formed(),
        before.keys().contains(key) ==> after.keys() == before.keys() && after.values()
            == before.values().update(before.index_of(key), value),
        !before.keys().contains(key) ==> after.keys() == before.keys().push(key) && after.values()
            == before.values().push(value),
    ensures
        after@ == before@.insert(key, value),
{
    assert forall|k: Seq<char>| after@.contains_key(k) == before@.insert(key, value).contains_key(
        k,
    ) by {
        if !before.keys().contains(key) {
            if before.keys().contains(k) {
                assert(after.keys()[before.keys().index_of(k)] == k);
            }
            if k == key {
                assert(after.keys()[before.keys().len() as int] == key);
            }
        }
    }
}

} // verus!
