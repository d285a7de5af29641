//! A small map kept in a vector: each key occurs once, and a key is found
//! by comparing it with each key in turn.

use crate::ids::PairKey;
use vstd::prelude::*;

verus! {

/// A key of a registry: two keys are the same key when their views are
/// equal.
pub trait RegistryKey: Sized {
    type Id;

    spec fn id(&self) -> Self::Id;

    fn same_key(&self, other: &Self) -> (b: bool)
        ensures
            b == (self.id() == other.id()),
    ;
}

impl RegistryKey for String {
    type Id = Seq<char>;

    open spec fn id(&self) -> Seq<char> {
        self@
    }

    fn same_key(&self, other: &Self) -> (b: bool) {
        *self == *other
    }
}

impl RegistryKey for PairKey {
    type Id = PairKey;

    open spec fn id(&self) -> PairKey {
        *self
    }

    fn same_key(&self, other: &Self) -> (b: bool) {
        self.a == other.a && self.b == other.b && self.route == other.route
    }
}

/// The index of the entry with the given key, if there is one.
pub open spec fn index_of<K: RegistryKey, T>(entries: Seq<(K, T)>, id: K::Id) -> Option<int> {
    if exists|i: int| 0 <= i < entries.len() && (#[trigger] entries[i]).0.id() == id {
        Some(choose|i: int| 0 <= i < entries.len() && (#[trigger] entries[i]).0.id() == id)
    } else {
        None
    }
}

/// No key occurs twice.
pub open spec fn distinct_keys<K: RegistryKey, T>(entries: Seq<(K, T)>) -> bool {
    forall|i: int, j: int|
        0 <= i < entries.len() && 0 <= j < entries.len() && (#[trigger] entries[i]).0.id() == (
        #[trigger] entries[j]).0.id() ==> i == j
}

/// What the entries hold: the value of each key that occurs.
pub open spec fn contents<K: RegistryKey, T>(entries: Seq<(K, T)>) -> Map<K::Id, T> {
    Map::new(
        |id: K::Id| index_of(entries, id) is Some,
        |id: K::Id| entries[index_of(entries, id)->0].1,
    )
}

/// A map from keys to values, kept as a vector of entries.
pub struct Registry<K: RegistryKey, T> {
    entries: Vec<(K, T)>,
}

impl<K: RegistryKey, T> View for Registry<K, T> {
    type V = Map<K::Id, T>;

    closed spec fn view(&self) -> Map<K::Id, T> {
        contents(self.entries@)
    }
}

impl<K: RegistryKey, T> Registry<K, T> {
    /// No key occurs twice among the entries.
    pub closed spec fn wf(&self) -> bool {
        distinct_keys(self.entries@)
    }

    /// How many entries there are.
    pub closed spec fn count(&self) -> nat {
        self.entries@.len()
    }

    /// The entry at a position.
    pub closed spec fn entry(&self, i: int) -> (K, T) {
        self.entries@[i]
    }

    /// The entries are what the registry holds: every entry is in the map
    /// under its key, and every key of the map is that of an entry.
    pub proof fn lemma_entries(&self)
        requires
            self.wf(),
        ensures
            forall|i: int|
                0 <= i < self.count() ==> self@.contains_key((#[trigger] self.entry(i)).0.id())
                    && self@[self.entry(i).0.id()] == self.entry(i).1,
            forall|id: K::Id| #[trigger]
                self@.contains_key(id) ==> exists|i: int|
                    0 <= i < self.count() && (#[trigger] self.entry(i)).0.id() == id,
            forall|i: int, j: int|
                0 <= i < self.count() && 0 <= j < self.count() && (#[trigger] self.entry(
                    i,
                )).0.id() == (#[trigger] self.entry(j)).0.id() ==> i == j,
    {
        let entries = self.entries@;
        assert forall|i: int| 0 <= i < entries.len() implies contents(entries).contains_key(
            (#[trigger] entries[i]).0.id(),
        ) && contents(entries)[entries[i].0.id()] == entries[i].1 by {
            let id = entries[i].0.id();
            assert(index_of(entries, id) is Some);
            let j = index_of(entries, id)->0;
            assert(entries[j].0.id() == entries[i].0.id());
        }
        assert forall|id: K::Id| #[trigger] self@.contains_key(id) implies exists|i: int|
            0 <= i < self.count() && (#[trigger] self.entry(i)).0.id() == id by {
            let j = index_of(entries, id)->0;
            assert(entries[j].0.id() == id);
            assert(self.entry(j).0.id() == id);
        }
    }

    pub fn new() -> (r: Self)
        ensures
            r.wf(),
            r@ == Map::<K::Id, T>::empty(),
            r.count() == 0,
    {
        let r = Registry { entries: Vec::new() };
        assert(r@ =~= Map::<K::Id, T>::empty());
        r
    }

    pub fn len(&self) -> (n: usize)
        ensures
            n == self.count(),
    {
        self.entries.len()
    }

    /// The entry at a position: its key and its value.
    pub fn at(&self, i: usize) -> (e: &(K, T))
        requires
            i < self.count(),
        ensures
            *e == self.entry(i as int),
    {
        &self.entries[i]
    }

    fn position(&self, key: &K) -> (found: Option<usize>)
        ensures
            match found {
                Some(i) => i < self.entries@.len() && self.entries@[i as int].0.id() == key.id(),
                None => forall|k: int|
                    0 <= k < self.entries@.len() ==> (#[trigger] self.entries@[k]).0.id()
                        != key.id(),
            },
    {
        let mut i: usize = 0;
        while i < self.entries.len()
            invariant
                i <= self.entries@.len(),
                forall|k: int| 0 <= k < i ==> (#[trigger] self.entries@[k]).0.id() != key.id(),
            decreases self.entries@.len() - i,
        {
            if self.entries[i].0.same_key(key) {
                return Some(i);
            }
            i = i + 1;
        }
        None
    }

    pub fn contains_key(&self, key: &K) -> (b: bool)
        requires
            self.wf(),
        ensures
            b == self@.contains_key(key.id()),
    {
        let found = self.position(key);
        proof {
            self.lemma_entries();
            if found is Some {
                assert(self.entry(found->0 as int).0.id() == key.id());
            }
        }
        found.is_some()
    }

    pub fn get(&self, key: &K) -> (found: Option<&T>)
        requires
            self.wf(),
        ensures
            match found {
                Some(value) => self@.contains_key(key.id()) && *value == self@[key.id()],
                None => !self@.contains_key(key.id()),
            },
    {
        proof {
            self.lemma_entries();
        }
        match self.position(key) {
            Some(i) => {
                assert(self.entry(i as int).0.id() == key.id());
                Some(&self.entries[i].1)
            },
            None => None,
        }
    }

    /// Puts a value under a key, and gives back the value that was there.
    pub fn insert(&mut self, key: K, value: T) -> (previous: Option<T>)
        requires
            old(self).wf(),
        ensures
            final(self).wf(),
            final(self)@ == old(self)@.insert(key.id(), value),
            match previous {
                Some(p) => old(self)@.contains_key(key.id()) && p == old(self)@[key.id()],
                None => !old(self)@.contains_key(key.id()),
            },
    {
        let previous = self.remove(&key);
        proof {
            lemma_push(self.entries@, key, value);
            assert(old(self)@.remove(key.id()).insert(key.id(), value) =~= old(self)@.insert(
                key.id(),
                value,
            ));
        }
        self.entries.push((key, value));
        previous
    }

    /// Takes the value under a key out, if there is one.
    pub fn remove(&mut self, key: &K) -> (removed: Option<T>)
        requires
            old(self).wf(),
        ensures
            final(self).wf(),
            final(self)@ == old(self)@.remove(key.id()),
            match removed {
                Some(p) => old(self)@.contains_key(key.id()) && p == old(self)@[key.id()],
                None => !old(self)@.contains_key(key.id()),
            },
    {
        let ghost before = self.entries@;
        proof {
            self.lemma_entries();
        }
        match self.position(key) {
            Some(i) => {
                assert(self.entry(i as int).0.id() == key.id());
                let (_, p) = self.entries.remove(i);
                proof {
                    let after = self.entries@;
                    lemma_remove_at(before, i as int);
                    assert(after == before.remove(i as int));
                }
                Some(p)
            },
            None => {
                proof {
                    if contents(before).contains_key(key.id()) {
                        let j = lemma_key_has_entry(before, key.id());
                    }
                    assert(contents(before).remove(key.id()) =~= contents(before));
                }
                None
            },
        }
    }

    /// Takes the entry at a position out.
    pub fn remove_at(&mut self, i: usize) -> (e: (K, T))
        requires
            old(self).wf(),
            i < old(self).count(),
        ensures
            final(self).wf(),
            e == old(self).entry(i as int),
            final(self)@ == old(self)@.remove(e.0.id()),
            final(self).count() == old(self).count() - 1,
            forall|k: int| 0 <= k < i ==> final(self).entry(k) == old(self).entry(k),
            forall|k: int|
                i <= k < final(self).count() ==> final(self).entry(k) == old(self).entry(k + 1),
    {
        let ghost before = self.entries@;
        let e = self.entries.remove(i);
        proof {
            lemma_remove_at(before, i as int);
        }
        e
    }
}

proof fn lemma_map_equal<A, B>(m1: Map<A, B>, m2: Map<A, B>)
    requires
        forall|k: A| #[trigger] m1.contains_key(k) == m2.contains_key(k),
        forall|k: A| #[trigger] m1.contains_key(k) ==> m1[k] == m2[k],
    ensures
        m1 == m2,
{
    assert(m1.dom() =~= m2.dom());
    assert(m1 =~= m2);
}

/// An entry is in the contents under its key.
proof fn lemma_entry_in_contents<K: RegistryKey, T>(entries: Seq<(K, T)>, i: int)
    requires
        distinct_keys(entries),
        0 <= i < entries.len(),
    ensures
        contents(entries).contains_key(entries[i].0.id()),
        contents(entries)[entries[i].0.id()] == entries[i].1,
        index_of(entries, entries[i].0.id()) == Some(i),
{
    let id = entries[i].0.id();
    assert(index_of(entries, id) is Some);
    let j = index_of(entries, id)->0;
    assert(entries[j].0.id() == entries[i].0.id());
}

/// A key of the contents is the key of an entry.
proof fn lemma_key_has_entry<K: RegistryKey, T>(entries: Seq<(K, T)>, id: K::Id) -> (i: int)
    requires
        contents(entries).contains_key(id),
    ensures
        0 <= i < entries.len(),
        entries[i].0.id() == id,
        index_of(entries, id) == Some(i),
{
    let j = index_of(entries, id)->0;
    assert(entries[j].0.id() == id);
    j
}

proof fn lemma_remove_at<K: RegistryKey, T>(before: Seq<(K, T)>, r: int)
    requires
        distinct_keys(before),
        0 <= r < before.len(),
    ensures
        distinct_keys(before.remove(r)),
        contents(before.remove(r)) == contents(before).remove(before[r].0.id()),
        contents(before).contains_key(before[r].0.id()),
        contents(before)[before[r].0.id()] == before[r].1,
{
    let after = before.remove(r);
    let id = before[r].0.id();
    assert(after.len() == before.len() - 1);
    assert forall|i: int, j: int|
        0 <= i < after.len() && 0 <= j < after.len() && (#[trigger] after[i]).0.id() == (
        #[trigger] after[j]).0.id() implies i == j by {
        let bi = if i < r {
            i
        } else {
            i + 1
        };
        let bj = if j < r {
            j
        } else {
            j + 1
        };
        assert(after[i] == before[bi]);
        assert(after[j] == before[bj]);
    }
    lemma_entry_in_contents(before, r);
    let m1 = contents(after);
    let m2 = contents(before).remove(id);
    assert forall|other: K::Id| #[trigger] m1.contains_key(other) == m2.contains_key(other) by {
        if m1.contains_key(other) {
            let k = lemma_key_has_entry(after, other);
            let bk = if k < r {
                k
            } else {
                k + 1
            };
            assert(after[k] == before[bk]);
            lemma_entry_in_contents(before, bk);
            assert(bk != r);
            assert(other != id);
        }
        if m2.contains_key(other) {
            let m = lemma_key_has_entry(before, other);
            assert(m != r);
            let k = if m < r {
                m
            } else {
                m - 1
            };
            assert(after[k] == before[m]);
            lemma_entry_in_contents(after, k);
        }
    }
    assert forall|other: K::Id| #[trigger] m1.contains_key(other) implies m1[other]
        == m2[other] by {
        let k = lemma_key_has_entry(after, other);
        let bk = if k < r {
            k
        } else {
            k + 1
        };
        assert(after[k] == before[bk]);
        lemma_entry_in_contents(before, bk);
        lemma_entry_in_contents(after, k);
    }
    lemma_map_equal(m1, m2);
}

/// Adding an entry with a key that does not occur puts its value under the
/// key.
proof fn lemma_push<K: RegistryKey, T>(middle: Seq<(K, T)>, key: K, value: T)
    requires
        distinct_keys(middle),
        !contents(middle).contains_key(key.id()),
    ensures
        distinct_keys(middle.push((key, value))),
        contents(middle.push((key, value))) == contents(middle).insert(key.id(), value),
{
    let after = middle.push((key, value));
    let last = middle.len() as int;
    assert(after[last] == (key, value));
    assert forall|i: int, j: int|
        0 <= i < after.len() && 0 <= j < after.len() && (#[trigger] after[i]).0.id() == (
        #[trigger] after[j]).0.id() implies i == j by {
        if i < last {
            assert(after[i] == middle[i]);
            lemma_entry_in_contents(middle, i);
        }
        if j < last {
            assert(after[j] == middle[j]);
            lemma_entry_in_contents(middle, j);
        }
    }
    let m1 = contents(after);
    let m2 = contents(middle).insert(key.id(), value);
    lemma_entry_in_contents(after, last);
    assert forall|other: K::Id| #[trigger] m1.contains_key(other) == m2.contains_key(other) by {
        if m1.contains_key(other) {
            let k = lemma_key_has_entry(after, other);
            if k < last {
                assert(after[k] == middle[k]);
                lemma_entry_in_contents(middle, k);
            }
        }
        if m2.contains_key(other) && other != key.id() {
            let k = lemma_key_has_entry(middle, other);
            assert(after[k] == middle[k]);
            lemma_entry_in_contents(after, k);
        }
    }
    assert forall|other: K::Id| #[trigger] m1.contains_key(other) implies m1[other]
        == m2[other] by {
        let k = lemma_key_has_entry(after, other);
        lemma_entry_in_contents(after, k);
        if k < last {
            assert(after[k] == middle[k]);
            lemma_entry_in_contents(middle, k);
        }
    }
    lemma_map_equal(m1, m2);
}

} // verus!
