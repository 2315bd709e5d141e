//! A table: values under keys that are compared by what they spell, each key at most once.

use vstd::prelude::*;
use vstd::string::*;

use crate::text::same_text;

verus! {

/// A key of a table. Two keys are the same if they have the same `key`.
pub trait Key: Sized {
    /// What the key spells.
    type Spelling;

    /// What this key spells.
    spec fn key(&self) -> Self::Spelling;

    /// Whether the two keys spell the same.
    fn same_key(&self, other: &Self) -> (same: bool)
        ensures
            same == (self.key() == other.key()),
    ;
}

impl Key for String {
    type Spelling = Seq<char>;

    open spec fn key(&self) -> Seq<char> {
        self@
    }

    fn same_key(&self, other: &Self) -> (same: bool) {
        same_text(self.as_str(), other.as_str())
    }
}

/// Values under keys.
#[derive(Debug)]
pub struct Table<K: Key, D> {
    entries: Vec<(K, D)>,
}

/// The list holds every entry of the map once, and nothing else.
pub open spec fn lists_map<K: Key, D>(list: Seq<(K, D)>, map: Map<K::Spelling, D>) -> bool {
    &&& forall|i: int|
        0 <= i < list.len() ==> map.contains_key((#[trigger] list[i]).0.key())
            && map[list[i].0.key()] == list[i].1
    &&& forall|i: int, j: int|
        0 <= i < j < list.len() ==> (#[trigger] list[i]).0.key() != (#[trigger] list[j]).0.key()
    &&& forall|key: K::Spelling| #[trigger]
        map.contains_key(key) ==> exists|i: int|
            0 <= i < list.len() && (#[trigger] list[i]).0.key() == key
}

spec fn has_key<K: Key, D>(entries: Seq<(K, D)>, key: K::Spelling) -> bool {
    exists|i: int| 0 <= i < entries.len() && (#[trigger] entries[i]).0.key() == key
}

spec fn index_of_key<K: Key, D>(entries: Seq<(K, D)>, key: K::Spelling) -> int {
    choose|i: int| 0 <= i < entries.len() && (#[trigger] entries[i]).0.key() == key
}

spec fn entries_map<K: Key, D>(entries: Seq<(K, D)>) -> Map<K::Spelling, D> {
    Map::new(
        |key: K::Spelling| has_key(entries, key),
        |key: K::Spelling| entries[index_of_key(entries, key)].1,
    )
}

spec fn distinct_keys<K: Key, D>(entries: Seq<(K, D)>) -> bool {
    forall|i: int, j: int|
        0 <= i < j < entries.len() ==> (#[trigger] entries[i]).0.key() != (
        #[trigger] entries[j]).0.key()
}

proof fn lemma_entry<K: Key, D>(entries: Seq<(K, D)>, i: int)
    requires
        distinct_keys(entries),
        0 <= i < entries.len(),
    ensures
        entries_map(entries).contains_key(entries[i].0.key()),
        entries_map(entries)[entries[i].0.key()] == entries[i].1,
{
    let key = entries[i].0.key();
    assert(has_key(entries, key));
    let k = index_of_key(entries, key);
    assert(entries[k].0.key() == key);
    assert(k == i);
}

proof fn lemma_push<K: Key, D>(entries: Seq<(K, D)>, entry: (K, D))
    requires
        distinct_keys(entries),
        !has_key(entries, entry.0.key()),
    ensures
        distinct_keys(entries.push(entry)),
        entries_map(entries.push(entry)) == entries_map(entries).insert(entry.0.key(), entry.1),
{
    let grown = entries.push(entry);
    assert forall|a: int, b: int| 0 <= a < b < grown.len() implies (#[trigger] grown[a]).0.key()
        != (#[trigger] grown[b]).0.key() by {
        assert(grown[a] == entries[a]);
    }
    let left = entries_map(grown);
    let right = entries_map(entries).insert(entry.0.key(), entry.1);
    assert forall|key: K::Spelling| left.contains_key(key) == right.contains_key(key) by {
        if has_key(grown, key) {
            let k = index_of_key(grown, key);
            assert(grown[k].0.key() == key);
            if k < entries.len() {
                assert(entries[k].0.key() == key);
            }
        }
        if has_key(entries, key) {
            let k = index_of_key(entries, key);
            assert(grown[k].0.key() == key);
        }
        assert(grown[entries.len() as int].0.key() == entry.0.key());
    }
    assert forall|key: K::Spelling| left.contains_key(key) implies left[key] == right[key] by {
        let k = index_of_key(grown, key);
        assert(grown[k].0.key() == key);
        lemma_entry(grown, k);
        if k < entries.len() {
            assert(grown[k] == entries[k]);
            lemma_entry(entries, k);
        }
    }
    assert(left =~= right);
}

proof fn lemma_remove<K: Key, D>(entries: Seq<(K, D)>, i: int)
    requires
        distinct_keys(entries),
        0 <= i < entries.len(),
    ensures
        distinct_keys(entries.remove(i)),
        !has_key(entries.remove(i), entries[i].0.key()),
        entries_map(entries.remove(i)) == entries_map(entries).remove(entries[i].0.key()),
{
    let gone = entries[i].0.key();
    let shrunk = entries.remove(i);
    let origin = |k: int|
        if k < i {
            k
        } else {
            k + 1
        };
    assert forall|k: int| 0 <= k < shrunk.len() implies #[trigger] shrunk[k] == entries[origin(
        k,
    )] by {}
    let left = entries_map(shrunk);
    let right = entries_map(entries).remove(gone);
    assert forall|key: K::Spelling| left.contains_key(key) == right.contains_key(key) by {
        if has_key(shrunk, key) {
            let k = index_of_key(shrunk, key);
            assert(entries[origin(k)].0.key() == key);
            assert(key != gone);
        }
        if has_key(entries, key) && key != gone {
            let k = index_of_key(entries, key);
            assert(entries[k].0.key() == key);
            let m = if k < i {
                k
            } else {
                k - 1
            };
            assert(shrunk[m].0.key() == key);
        }
    }
    assert forall|key: K::Spelling| left.contains_key(key) implies left[key] == right[key] by {
        let k = index_of_key(shrunk, key);
        assert(shrunk[k].0.key() == key);
        lemma_entry(shrunk, k);
        lemma_entry(entries, origin(k));
        assert(entries[origin(k)].0.key() == key);
    }
    assert(left =~= right);
    assert(!left.contains_key(gone));
}

impl<K: Key, D> Table<K, D> {
    /// The values by what their keys spell.
    pub closed spec fn view(&self) -> Map<K::Spelling, D> {
        entries_map(self.entries@)
    }

    /// No key is there twice.
    pub closed spec fn wf(&self) -> bool {
        distinct_keys(self.entries@)
    }

    /// An empty table.
    pub fn new() -> (table: Self)
        ensures
            table.wf(),
            table@ == Map::<K::Spelling, D>::empty(),
    {
        let table = Table { entries: Vec::new() };
        assert(table@ =~= Map::<K::Spelling, D>::empty());
        table
    }

    fn find(&self, key: &K) -> (found: Option<usize>)
        requires
            self.wf(),
        ensures
            match found {
                Some(i) => i < self.entries@.len() && self.entries@[i as int].0.key() == key.key()
                    && self@.contains_key(key.key()) && self@[key.key()]
                    == self.entries@[i as int].1,
                None => !has_key(self.entries@, key.key()) && !self@.contains_key(key.key()),
            },
    {
        let mut i: usize = 0;
        while i < self.entries.len()
            invariant
                self.wf(),
                i <= self.entries.len(),
                forall|j: int|
                    0 <= j < i ==> (#[trigger] self.entries@[j]).0.key() != key.key(),
            decreases self.entries.len() - i,
        {
            if self.entries[i].0.same_key(key) {
                proof {
                    lemma_entry(self.entries@, i as int);
                }
                return Some(i);
            }
            i = i + 1;
        }
        None
    }

    /// Whether the key is there.
    pub fn contains(&self, key: &K) -> (found: bool)
        requires
            self.wf(),
        ensures
            found == self@.contains_key(key.key()),
    {
        self.find(key).is_some()
    }

    /// The value under the key.
    pub fn get(&self, key: &K) -> (value: Option<&D>)
        requires
            self.wf(),
        ensures
            match value {
                Some(value) => self@.contains_key(key.key()) && *value == self@[key.key()],
                None => !self@.contains_key(key.key()),
            },
    {
        match self.find(key) {
            Some(i) => Some(&self.entries[i].1),
            None => None,
        }
    }

    /// Takes the value under the key out of the table.
    pub fn remove(&mut self, key: &K) -> (value: Option<D>)
        requires
            old(self).wf(),
        ensures
            final(self).wf(),
            final(self)@ == old(self)@.remove(key.key()),
            match value {
                Some(value) => old(self)@.contains_key(key.key()) && value
                    == old(self)@[key.key()],
                None => !old(self)@.contains_key(key.key()),
            },
    {
        match self.find(key) {
            Some(i) => {
                proof {
                    lemma_remove(self.entries@, i as int);
                }
                let (_, value) = self.entries.remove(i);
                Some(value)
            },
            None => {
                assert(self@ =~= old(self)@.remove(key.key()));
                None
            },
        }
    }

    /// Puts the value under the key, in place of what stood there.
    pub fn insert(&mut self, key: K, value: D)
        requires
            old(self).wf(),
        ensures
            final(self).wf(),
            final(self)@ == old(self)@.insert(key.key(), value),
    {
        let ghost before = self@;
        self.remove(&key);
        proof {
            if has_key(self.entries@, key.key()) {
                assert(self@.contains_key(key.key()));
            }
            lemma_push(self.entries@, (key, value));
            assert(before.remove(key.key()).insert(key.key(), value) =~= before.insert(
                key.key(),
                value,
            ));
        }
        self.entries.push((key, value));
    }

    /// The entries.
    pub fn list(&self) -> (list: &Vec<(K, D)>)
        requires
            self.wf(),
        ensures
            lists_map(list@, self@),
    {
        proof {
            assert forall|i: int| 0 <= i < self.entries@.len() implies self@.contains_key(
                (#[trigger] self.entries@[i]).0.key(),
            ) && self@[self.entries@[i].0.key()] == self.entries@[i].1 by {
                lemma_entry(self.entries@, i);
            }
        }
        &self.entries
    }
}

} // verus!
