//! A small keyed store with mathematical-map semantics.
//!
//! The environment binding, the fetched-modules result and the pod registry
//! are all finite mappings with unique keys whose insertion order carries no
//! meaning. This module gives them one executable representation — an
//! association list with unique keys — whose view is a `Map`, so every
//! contract over them can be stated in map algebra.

use vstd::prelude::*;

verus! {

/// An executable key: a type with a mathematical view that can be compared
/// for view equality.
pub trait MapKey: View + Sized {
    /// Decides whether two keys have the same mathematical value.
    fn key_eq(&self, other: &Self) -> (r: bool)
        ensures
            r == (self@ == other@),
    ;
}

impl MapKey for String {
    fn key_eq(&self, other: &Self) -> (r: bool) {
        self.eq(other)
    }
}

/// The mathematical map held by an association list: later entries win,
/// though a well-formed list never repeats a key.
pub open spec fn as_map<K: MapKey, V>(entries: Seq<(K, V)>) -> Map<K::V, V>
    decreases entries.len(),
{
    if entries.len() == 0 {
        Map::<K::V, V>::empty()
    } else {
        as_map(entries.drop_last()).insert(entries.last().0@, entries.last().1)
    }
}

/// No two entries share a key view.
pub open spec fn unique_keys<K: MapKey, V>(entries: Seq<(K, V)>) -> bool {
    forall|i: int, j: int|
        0 <= i < j < entries.len() ==> (#[trigger] entries[i]).0@ != (#[trigger] entries[j]).0@
}

/// A key is in the map exactly when some entry carries it.
pub proof fn lemma_as_map_contains<K: MapKey, V>(entries: Seq<(K, V)>, k: K::V)
    ensures
        as_map(entries).contains_key(k) <==> exists|i: int|
            0 <= i < entries.len() && (#[trigger] entries[i]).0@ == k,
    decreases entries.len(),
{
    if entries.len() > 0 {
        lemma_as_map_contains(entries.drop_last(), k);
        if entries.last().0@ != k {
            if as_map(entries).contains_key(k) {
                let i = choose|i: int|
                    0 <= i < entries.drop_last().len() && (#[trigger] entries.drop_last()[i]).0@
                        == k;
                assert(entries[i].0@ == k);
            }
            if exists|i: int| 0 <= i < entries.len() && (#[trigger] entries[i]).0@ == k {
                let i = choose|i: int| 0 <= i < entries.len() && (#[trigger] entries[i]).0@ == k;
                assert(entries.drop_last()[i].0@ == k);
            }
        }
    }
}

/// With unique keys, the entry carrying a key decides its value in the map.
pub proof fn lemma_as_map_get<K: MapKey, V>(entries: Seq<(K, V)>, i: int)
    requires
        unique_keys(entries),
        0 <= i < entries.len(),
    ensures
        as_map(entries).contains_key(entries[i].0@),
        as_map(entries)[entries[i].0@] == entries[i].1,
    decreases entries.len(),
{
    if i < entries.len() - 1 {
        assert(unique_keys(entries.drop_last()));
        assert(entries.drop_last()[i] == entries[i]);
        lemma_as_map_get(entries.drop_last(), i);
        assert(entries[i].0@ != entries.last().0@);
    }
}

/// Appending a fresh entry inserts it into the map.
pub proof fn lemma_as_map_push<K: MapKey, V>(entries: Seq<(K, V)>, k: K, v: V)
    ensures
        as_map(entries.push((k, v))) == as_map(entries).insert(k@, v),
{
    assert(entries.push((k, v)).drop_last() =~= entries);
}

/// Replacing the entry that carries a key updates it in the map.
pub proof fn lemma_as_map_update<K: MapKey, V>(entries: Seq<(K, V)>, i: int, k: K, v: V)
    requires
        unique_keys(entries),
        0 <= i < entries.len(),
        entries[i].0@ == k@,
    ensures
        as_map(entries.update(i, (k, v))) =~= as_map(entries).insert(k@, v),
    decreases entries.len(),
{
    let updated = entries.update(i, (k, v));
    if i == entries.len() - 1 {
        assert(updated.drop_last() =~= entries.drop_last());
    } else {
        assert(unique_keys(entries.drop_last()));
        assert(entries.drop_last()[i] == entries[i]);
        lemma_as_map_update(entries.drop_last(), i, k, v);
        assert(updated.drop_last() =~= entries.drop_last().update(i, (k, v)));
        assert(updated.last() == entries.last());
        assert(entries.last().0@ != k@);
    }
}

/// Removing the entry that carries a key removes it from the map.
pub proof fn lemma_as_map_remove<K: MapKey, V>(entries: Seq<(K, V)>, i: int)
    requires
        unique_keys(entries),
        0 <= i < entries.len(),
    ensures
        as_map(entries.remove(i)) =~= as_map(entries).remove(entries[i].0@),
    decreases entries.len(),
{
    let k = entries[i].0@;
    if i == entries.len() - 1 {
        assert(entries.remove(i) =~= entries.drop_last());
        lemma_as_map_contains(entries.drop_last(), k);
        assert(forall|j: int|
            0 <= j < entries.drop_last().len() ==> (#[trigger] entries.drop_last()[j]).0@ != k);
        assert(!as_map(entries.drop_last()).contains_key(k));
    } else {
        assert(unique_keys(entries.drop_last()));
        assert(entries.drop_last()[i] == entries[i]);
        lemma_as_map_remove(entries.drop_last(), i);
        assert(entries.remove(i).drop_last() =~= entries.drop_last().remove(i));
        assert(entries.remove(i).last() == entries.last());
        assert(entries.last().0@ != k);
    }
}

/// A finite mapping with unique keys, held as an association list. Its view
/// is the `Map` it denotes.
pub struct AssocMap<K, V> {
    entries: Vec<(K, V)>,
}

impl<K: MapKey, V> View for AssocMap<K, V> {
    type V = Map<K::V, V>;

    closed spec fn view(&self) -> Map<K::V, V> {
        as_map(self.entries@)
    }
}

impl<K: MapKey, V> AssocMap<K, V> {
    /// The underlying entries, for contracts that speak of iteration order.
    pub closed spec fn entries_seq(&self) -> Seq<(K, V)> {
        self.entries@
    }

    /// Well-formed: no key occurs twice.
    pub open spec fn wf(&self) -> bool {
        unique_keys(self.entries_seq())
    }

    /// The empty mapping.
    pub fn new() -> (m: Self)
        ensures
            m.wf(),
            m@ =~= Map::<K::V, V>::empty(),
            m.entries_seq().len() == 0,
    {
        AssocMap { entries: Vec::new() }
    }

    /// The number of entries.
    pub fn len(&self) -> (n: usize)
        ensures
            n == self.entries_seq().len(),
    {
        self.entries.len()
    }

    /// The entry at a position, for iteration.
    pub fn entry_at(&self, i: usize) -> (e: &(K, V))
        requires
            i < self.entries_seq().len(),
        ensures
            *e == self.entries_seq()[i as int],
    {
        &self.entries[i]
    }

    /// Every entry's value stands in the map under the entry's key.
    pub proof fn lemma_entry_in_map(&self, i: int)
        requires
            self.wf(),
            0 <= i < self.entries_seq().len(),
        ensures
            self@.contains_key(self.entries_seq()[i].0@),
            self@[self.entries_seq()[i].0@] == self.entries_seq()[i].1,
    {
        lemma_as_map_get(self.entries_seq(), i);
    }

    /// Conversely, every key of the map is carried by some entry, whose value
    /// is the map's.
    pub proof fn lemma_contains_entry(&self, k: K::V)
        requires
            self.wf(),
            self@.contains_key(k),
        ensures
            exists|i: int|
                0 <= i < self.entries_seq().len() && (#[trigger] self.entries_seq()[i]).0@ == k
                    && self.entries_seq()[i].1 == self@[k],
    {
        lemma_as_map_contains(self.entries_seq(), k);
        let i = choose|i: int|
            0 <= i < self.entries_seq().len() && (#[trigger] self.entries_seq()[i]).0@ == k;
        lemma_as_map_get(self.entries_seq(), i);
    }

    fn find_index(&self, key: &K) -> (r: Option<usize>)
        ensures
            match r {
                Some(i) => i < self.entries_seq().len() && self.entries_seq()[i as int].0@ == key@,
                None => forall|j: int|
                    0 <= j < self.entries_seq().len() ==> (#[trigger] self.entries_seq()[j]).0@
                        != key@,
            },
    {
        let n = self.entries.len();
        let mut i: usize = 0;
        while i < n
            invariant
                i <= n,
                n == self.entries_seq().len(),
                forall|j: int| 0 <= j < i ==> (#[trigger] self.entries_seq()[j]).0@ != key@,
            decreases n - i,
        {
            if self.entries[i].0.key_eq(key) {
                return Some(i);
            }
            i = i + 1;
        }
        None
    }

    /// Whether the mapping holds the key.
    pub fn contains_key(&self, key: &K) -> (r: bool)
        ensures
            r == self@.contains_key(key@),
    {
        proof {
            lemma_as_map_contains(self.entries_seq(), key@);
        }
        self.find_index(key).is_some()
    }

    /// The value under a key, if any.
    pub fn get(&self, key: &K) -> (r: Option<&V>)
        requires
            self.wf(),
        ensures
            match r {
                Some(v) => self@.contains_key(key@) && *v == self@[key@],
                None => !self@.contains_key(key@),
            },
    {
        proof {
            lemma_as_map_contains(self.entries_seq(), key@);
        }
        match self.find_index(key) {
            Some(i) => {
                proof {
                    lemma_as_map_get(self.entries_seq(), i as int);
                }
                Some(&self.entries[i].1)
            },
            None => None,
        }
    }

    /// Binds the key to the value, replacing any earlier binding.
    pub fn insert(&mut self, key: K, value: V)
        requires
            old(self).wf(),
        ensures
            final(self).wf(),
            final(self)@ =~= old(self)@.insert(key@, value),
    {
        match self.find_index(&key) {
            Some(i) => {
                proof {
                    lemma_as_map_update(self.entries_seq(), i as int, key, value);
                }
                let _ = self.entries.remove(i);
                self.entries.insert(i, (key, value));
                proof {
                    assert(self.entries_seq() =~= old(self).entries_seq().update(
                        i as int,
                        (key, value),
                    ));
                }
            },
            None => {
                proof {
                    lemma_as_map_push(self.entries_seq(), key, value);
                }
                self.entries.push((key, value));
            },
        }
    }

    /// Removes the binding of a key, returning the value that held it.
    /// Removing an unknown key succeeds and changes nothing.
    pub fn remove(&mut self, key: &K) -> (r: Option<V>)
        requires
            old(self).wf(),
        ensures
            final(self).wf(),
            final(self)@ =~= old(self)@.remove(key@),
            match r {
                Some(v) => old(self)@.contains_key(key@) && v == old(self)@[key@],
                None => !old(self)@.contains_key(key@) && final(self)@ =~= old(self)@,
            },
    {
        proof {
            lemma_as_map_contains(self.entries_seq(), key@);
        }
        match self.find_index(key) {
            Some(i) => {
                proof {
                    lemma_as_map_get(self.entries_seq(), i as int);
                    lemma_as_map_remove(self.entries_seq(), i as int);
                }
                let (_, v) = self.entries.remove(i);
                Some(v)
            },
            None => {
                proof {
                    assert(!old(self)@.contains_key(key@));
                    assert(old(self)@.remove(key@) =~= old(self)@);
                }
                None
            },
        }
    }
}

} // verus!
