//! Tables: entries found by their key, at most one for each key.
use vstd::prelude::*;

use crate::crypto;

verus! {

/// What an entry of a [`Table`] is found by.
///
/// Two keys are the same key when their views are equal.
pub trait Key: View + Sized {
    /// Tells whether `self` and `other` are the same key.
    fn is_same(&self, other: &Self) -> (same: bool)
        ensures
            same == (self@ == other@),
    ;
}

impl Key for crypto::Hash {
    fn is_same(&self, other: &Self) -> (same: bool)
        ensures
            same == (self.bytes@ == other.bytes@),
    {
        *self == *other
    }
}

impl Key for String {
    fn is_same(&self, other: &Self) -> (same: bool) {
        *self == *other
    }
}

/// Whether an entry with the key `key` is among `entries`.
spec fn has_key<K: Key, V>(entries: Seq<(K, V)>, key: K::V) -> bool {
    exists|i: int| 0 <= i < entries.len() && #[trigger] entries[i].0@ == key
}

/// Where the entry with the key `key` stands among `entries`.
spec fn position<K: Key, V>(entries: Seq<(K, V)>, key: K::V) -> int {
    choose|i: int| 0 <= i < entries.len() && #[trigger] entries[i].0@ == key
}

/// Whether no key occurs twice among `entries`.
spec fn keys_differ<K: Key, V>(entries: Seq<(K, V)>) -> bool {
    forall|i: int, j: int|
        #![trigger entries[i], entries[j]]
        0 <= i < j < entries.len() ==> entries[i].0@ != entries[j].0@
}

/// The map from keys to values that `entries` write down.
spec fn map_of<K: Key, V>(entries: Seq<(K, V)>) -> Map<K::V, V> {
    Map::new(
        |key: K::V| has_key(entries, key),
        |key: K::V| entries[position(entries, key)].1,
    )
}

/// An entry found at `i` is the value of the map at its key.
proof fn lemma_entry<K: Key, V>(entries: Seq<(K, V)>, i: int)
    requires
        keys_differ(entries),
        0 <= i < entries.len(),
    ensures
        map_of(entries).contains_key(entries[i].0@),
        map_of(entries)[entries[i].0@] == entries[i].1,
{
    let key = entries[i].0@;
    assert(has_key(entries, key));
    let p = position(entries, key);
    assert(0 <= p < entries.len() && entries[p].0@ == key);
    assert(p == i);
}

/// Entries whose keys differ, read as a map.
pub struct Table<K: Key, V> {
    entries: Vec<(K, V)>,
}

impl<K: Key, V> View for Table<K, V> {
    type V = Map<K::V, V>;

    closed spec fn view(&self) -> Map<K::V, V> {
        map_of(self.entries@)
    }
}

impl<K: Key, V> Table<K, V> {
    #[verifier::type_invariant]
    spec fn keys_are_unique(&self) -> bool {
        keys_differ(self.entries@)
    }

    /// A table without entries.
    pub fn new() -> (table: Self)
        ensures
            table@ == Map::<K::V, V>::empty(),
    {
        let table = Table { entries: Vec::new() };
        assert(table@ =~= Map::<K::V, V>::empty());
        table
    }

    /// The position of the entry with the key `key`.
    fn find(&self, key: &K) -> (found: Option<usize>)
        ensures
            match found {
                Some(i) => i < self.entries.len() && self.entries[i as int].0@ == key@,
                None => !has_key(self.entries@, key@),
            },
    {
        let mut i: usize = 0;
        while i < self.entries.len()
            invariant
                i <= self.entries.len(),
                forall|j: int| 0 <= j < i ==> (#[trigger] self.entries@[j]).0@ != key@,
            decreases self.entries.len() - i,
        {
            if self.entries[i].0.is_same(key) {
                return Some(i);
            }
            i = i + 1;
        }
        None
    }

    /// The value at `key`.
    pub fn get(&self, key: &K) -> (value: Option<&V>)
        ensures
            match value {
                Some(v) => self@.contains_key(key@) && *v == self@[key@],
                None => !self@.contains_key(key@),
            },
    {
        proof {
            use_type_invariant(self);
        }
        match self.find(key) {
            Some(i) => {
                proof {
                    lemma_entry(self.entries@, i as int);
                }
                Some(&self.entries[i].1)
            },
            None => None,
        }
    }

    /// Tells whether there is a value at `key`.
    pub fn contains(&self, key: &K) -> (found: bool)
        ensures
            found == self@.contains_key(key@),
    {
        self.get(key).is_some()
    }

    /// Takes the entry with the key `key` out of the table.
    pub fn remove(&mut self, key: &K) -> (value: Option<V>)
        ensures
            final(self)@ == old(self)@.remove(key@),
            match value {
                Some(v) => old(self)@.contains_key(key@) && v == old(self)@[key@],
                None => !old(self)@.contains_key(key@),
            },
    {
        proof {
            use_type_invariant(&*self);
        }
        let ghost before = self.entries@;
        match self.find(key) {
            Some(i) => {
                let mut entries: Vec<(K, V)> = Vec::new();
                std::mem::swap(&mut entries, &mut self.entries);
                let (_, value) = entries.remove(i);
                proof {
                    lemma_entry(before, i as int);
                    lemma_removed(before, i as int);
                }
                self.entries = entries;
                Some(value)
            },
            None => {
                assert(self@ =~= old(self)@.remove(key@));
                None
            },
        }
    }

    /// Puts `value` at `key`, in place of the value that may stand there.
    pub fn put(&mut self, key: K, value: V)
        ensures
            final(self)@ == old(self)@.insert(key@, value),
    {
        let ghost start = self@;
        let _ = self.remove(&key);
        proof {
            use_type_invariant(&*self);
        }
        let ghost before = self.entries@;
        let mut entries: Vec<(K, V)> = Vec::new();
        std::mem::swap(&mut entries, &mut self.entries);
        let ghost entry = (key, value);
        entries.push((key, value));
        proof {
            assert(!map_of(before).contains_key(entry.0@));
            lemma_pushed(before, entry);
            assert(map_of(entries@) =~= start.insert(entry.0@, value));
        }
        self.entries = entries;
    }
}

/// Removing the entry at `i` removes its key from the map, and nothing else.
proof fn lemma_removed<K: Key, V>(entries: Seq<(K, V)>, i: int)
    requires
        keys_differ(entries),
        0 <= i < entries.len(),
    ensures
        keys_differ(entries.remove(i)),
        map_of(entries.remove(i)) == map_of(entries).remove(entries[i].0@),
{
    let after = entries.remove(i);
    let removed = entries[i].0@;
    assert forall|key: K::V| has_key(after, key) == (has_key(entries, key) && key != removed) by {
        if has_key(after, key) {
            let p = position(after, key);
            let q = if p < i {
                p
            } else {
                p + 1
            };
            assert(after[p] == entries[q]);
        }
        if has_key(entries, key) && key != removed {
            let q = position(entries, key);
            let p = if q < i {
                q
            } else {
                q - 1
            };
            assert(after[p] == entries[q]);
        }
    }
    assert(keys_differ(after));
    assert forall|key: K::V| has_key(after, key) implies map_of(after)[key] == map_of(entries)[key] by {
        let p = position(after, key);
        let q = if p < i {
            p
        } else {
            p + 1
        };
        assert(after[p] == entries[q]);
        lemma_entry(after, p);
        lemma_entry(entries, q);
    }
    assert(map_of(after) =~= map_of(entries).remove(removed));
}

/// Pushing an entry with a new key adds that key to the map, and nothing else.
proof fn lemma_pushed<K: Key, V>(entries: Seq<(K, V)>, entry: (K, V))
    requires
        keys_differ(entries),
        !map_of(entries).contains_key(entry.0@),
    ensures
        keys_differ(entries.push(entry)),
        map_of(entries.push(entry)) == map_of(entries).insert(entry.0@, entry.1),
{
    let after = entries.push(entry);
    assert(after.last() == entry);
    assert forall|i: int| 0 <= i < entries.len() implies (#[trigger] after[i]).0@ != entry.0@ by {
        assert(after[i] == entries[i]);
        lemma_entry(entries, i);
    }
    assert(keys_differ(after));
    lemma_entry(after, entries.len() as int);
    assert forall|key: K::V| #[trigger] has_key(after, key) == (has_key(entries, key) || key == entry.0@) by {
        if has_key(after, key) {
            let p = position(after, key);
            assert(p < entries.len() ==> after[p] == entries[p]);
        }
        if has_key(entries, key) {
            let q = position(entries, key);
            assert(after[q] == entries[q]);
        }
        if key == entry.0@ {
            assert(after[entries.len() as int].0@ == key);
        }
    }
    assert forall|key: K::V| has_key(entries, key) implies map_of(after)[key] == map_of(entries)[key] by {
        let q = position(entries, key);
        assert(after[q] == entries[q]);
        lemma_entry(after, q);
    }
    assert(map_of(after) =~= map_of(entries).insert(entry.0@, entry.1));
}

} // verus!
