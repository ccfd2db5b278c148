//! A map kept as a list of entries in the order in which their keys first came.
//!
//! The order matters: the leaderboards scan a map from its first entry to its
//! last and keep that order among equal counts.
use vstd::prelude::*;

use crate::ids::MapKey;

verus! {

/// Whether no key occurs twice in `s`.
pub open spec fn keys_unique<K, V>(s: Seq<(K, V)>) -> bool {
    forall|i: int, j: int| 0 <= i < j < s.len() ==> s[i].0 != s[j].0
}

/// The value stored under `k` in the entry list `s`.
pub open spec fn lookup<K, V>(s: Seq<(K, V)>, k: K) -> Option<V>
    decreases s.len(),
{
    if s.len() == 0 {
        None
    } else if s.last().0 == k {
        Some(s.last().1)
    } else {
        lookup(s.drop_last(), k)
    }
}

/// The keys of an entry list, in order.
pub open spec fn keys_of<K, V>(s: Seq<(K, V)>) -> Seq<K> {
    s.map_values(|e: (K, V)| e.0)
}

/// With unique keys, the value under the key of entry `i` is the value of entry `i`.
pub proof fn lemma_lookup_at<K, V>(s: Seq<(K, V)>, i: int)
    requires
        keys_unique(s),
        0 <= i < s.len(),
    ensures
        lookup(s, s[i].0) == Some(s[i].1),
    decreases s.len(),
{
    if i != s.len() - 1 {
        assert(s.drop_last()[i] == s[i]);
        lemma_lookup_at(s.drop_last(), i);
    }
}

/// A key that no entry carries has no value.
pub proof fn lemma_lookup_absent<K, V>(s: Seq<(K, V)>, k: K)
    requires
        forall|i: int| 0 <= i < s.len() ==> s[i].0 != k,
    ensures
        lookup(s, k) is None,
    decreases s.len(),
{
    if s.len() > 0 {
        assert(s.last() == s[s.len() - 1]);
        lemma_lookup_absent(s.drop_last(), k);
    }
}

/// A key has a value exactly when some entry carries it.
pub proof fn lemma_lookup_some<K, V>(s: Seq<(K, V)>, k: K)
    requires
        lookup(s, k) is Some,
    ensures
        exists|i: int| 0 <= i < s.len() && s[i].0 == k && lookup(s, k) == Some(s[i].1),
    decreases s.len(),
{
    if s.last().0 != k {
        lemma_lookup_some(s.drop_last(), k);
        let i = choose|i: int| 0 <= i < s.drop_last().len() && s.drop_last()[i].0 == k && lookup(
            s.drop_last(),
            k,
        ) == Some(s.drop_last()[i].1);
        assert(s[i] == s.drop_last()[i]);
    } else {
        assert(s[s.len() - 1] == s.last());
    }
}

/// In a list with unique keys, each entry holds the value that the list maps
/// its key to, and the keys are listed in the order of the entries.
pub proof fn lemma_entries_agree<K, V>(s: Seq<(K, V)>)
    requires
        keys_unique(s),
    ensures
        keys_of(s).len() == s.len(),
        forall|i: int|
            0 <= i < s.len() ==> keys_of(s)[i] == s[i].0 && #[trigger] lookup(s, s[i].0) == Some(
                s[i].1,
            ),
{
    assert forall|i: int| 0 <= i < s.len() implies #[trigger] lookup(s, s[i].0) == Some(s[i].1) by {
        lemma_lookup_at(s, i);
    }
}

/// A finite map held as a list of entries with distinct keys.
pub struct KeyedMap<K, V> {
    entries: Vec<(K, V)>,
}

impl<K: MapKey, V> View for KeyedMap<K, V> {
    type V = Map<K, V>;

    open spec fn view(&self) -> Map<K, V> {
        Map::new(|k: K| lookup(self.entries(), k) is Some, |k: K| lookup(self.entries(), k)->Some_0)
    }
}

impl<K: MapKey, V> KeyedMap<K, V> {
    /// The entries, in the order in which their keys first came.
    pub closed spec fn entries(&self) -> Seq<(K, V)> {
        self.entries@
    }

    pub open spec fn wf(&self) -> bool {
        keys_unique(self.entries())
    }

    pub fn new() -> (m: Self)
        ensures
            m.wf(),
            m.entries() == Seq::<(K, V)>::empty(),
            m@ == Map::<K, V>::empty(),
    {
        let m = KeyedMap { entries: Vec::new() };
        assert(m@ =~= Map::<K, V>::empty());
        m
    }

    pub fn len(&self) -> (n: usize)
        ensures
            n == self.entries().len(),
    {
        self.entries.len()
    }

    /// The entry at position `i`.
    pub fn entry_at(&self, i: usize) -> (e: &(K, V))
        requires
            i < self.entries().len(),
        ensures
            *e == self.entries()[i as int],
    {
        &self.entries[i]
    }

    /// The position of the entry with key `k`.
    fn find(&self, k: &K) -> (r: Option<usize>)
        requires
            self.wf(),
        ensures
            match r {
                Some(i) => i < self.entries().len() && self.entries()[i as int].0 == *k
                    && self@.contains_key(*k) && self@[*k] == self.entries()[i as int].1,
                None => !self@.contains_key(*k),
            },
    {
        let n = self.entries.len();
        let mut i: usize = 0;
        while i < n
            invariant
                self.wf(),
                n == self.entries().len(),
                i <= n,
                forall|j: int| 0 <= j < i ==> self.entries()[j].0 != *k,
            decreases n - i,
        {
            if self.entries[i].0.same_key(k) {
                proof {
                    lemma_lookup_at(self.entries(), i as int);
                }
                return Some(i);
            }
            i = i + 1;
        }
        proof {
            lemma_lookup_absent(self.entries(), *k);
        }
        None
    }

    pub fn contains_key(&self, k: &K) -> (r: bool)
        requires
            self.wf(),
        ensures
            r == self@.contains_key(*k),
    {
        self.find(k).is_some()
    }

    pub fn get(&self, k: &K) -> (r: Option<&V>)
        requires
            self.wf(),
        ensures
            r == (if self@.contains_key(*k) {
                Some(&self@[*k])
            } else {
                None
            }),
    {
        match self.find(k) {
            Some(i) => Some(&self.entries[i].1),
            None => None,
        }
    }

    /// Stores `v` under `k`. A key already present keeps its position; a new one goes last.
    pub fn insert(&mut self, k: K, v: V)
        requires
            old(self).wf(),
        ensures
            final(self).wf(),
            final(self)@ == old(self)@.insert(k, v),
            keys_of(final(self).entries()) == if old(self)@.contains_key(k) {
                keys_of(old(self).entries())
            } else {
                keys_of(old(self).entries()).push(k)
            },
    {
        let ghost s0 = self.entries();
        match self.find(&k) {
            Some(i) => {
                self.entries.set(i, (k, v));
                let ghost s1 = self.entries();
                assert(s1 == s0.update(i as int, (k, v)));
                assert forall|a: int, b: int| 0 <= a < b < s1.len() implies s1[a].0 != s1[b].0 by {
                    assert(s1[a].0 == s0[a].0);
                    assert(s1[b].0 == s0[b].0);
                }
                assert forall|k2: K| #[trigger] lookup(s1, k2) == if k2 == k {
                    Some(v)
                } else {
                    lookup(s0, k2)
                } by {
                    if k2 == k {
                        lemma_lookup_at(s1, i as int);
                    } else if lookup(s0, k2) is Some {
                        lemma_lookup_some(s0, k2);
                        let j = choose|j: int|
                            0 <= j < s0.len() && s0[j].0 == k2 && lookup(s0, k2) == Some(s0[j].1);
                        lemma_lookup_at(s1, j);
                    } else {
                        assert forall|j: int| 0 <= j < s1.len() implies s1[j].0 != k2 by {
                            if s0[j].0 == k2 {
                                lemma_lookup_at(s0, j);
                            }
                        }
                        lemma_lookup_absent(s1, k2);
                    }
                }
                assert(keys_of(s1) =~= keys_of(s0));
            },
            None => {
                self.entries.push((k, v));
                let ghost s1 = self.entries();
                assert(s1.drop_last() =~= s0);
                assert forall|a: int, b: int| 0 <= a < b < s1.len() implies s1[a].0 != s1[b].0 by {
                    if b == s1.len() - 1 {
                        assert(s0[a].0 != k) by {
                            if s0[a].0 == k {
                                lemma_lookup_at(s0, a);
                            }
                        }
                    }
                }
                assert forall|k2: K| #[trigger] lookup(s1, k2) == if k2 == k {
                    Some(v)
                } else {
                    lookup(s0, k2)
                } by {}
                assert(keys_of(s1) =~= keys_of(s0).push(k));
            },
        }
        assert(self@ =~= old(self)@.insert(k, v));
    }

    /// Takes out the value under `k`, where there is one.
    pub fn remove(&mut self, k: &K) -> (r: Option<V>)
        requires
            old(self).wf(),
        ensures
            final(self).wf(),
            final(self)@ == old(self)@.remove(*k),
            r == (if old(self)@.contains_key(*k) {
                Some(old(self)@[*k])
            } else {
                None
            }),
    {
        let ghost s0 = self.entries();
        match self.find(k) {
            Some(i) => {
                let (_, v) = self.entries.remove(i);
                let ghost s1 = self.entries();
                assert(s1 == s0.remove(i as int));
                assert forall|a: int, b: int| 0 <= a < b < s1.len() implies s1[a].0 != s1[b].0 by {
                    if a >= i {
                        assert(s1[a] == s0[a + 1]);
                    }
                    if b >= i {
                        assert(s1[b] == s0[b + 1]);
                    }
                }
                assert forall|k2: K| #[trigger] lookup(s1, k2) == if k2 == *k {
                    None
                } else {
                    lookup(s0, k2)
                } by {
                    if k2 == *k {
                        assert forall|j: int| 0 <= j < s1.len() implies s1[j].0 != k2 by {
                            if j >= i {
                                assert(s1[j] == s0[j + 1]);
                            }
                        }
                        lemma_lookup_absent(s1, k2);
                    } else if lookup(s0, k2) is Some {
                        lemma_lookup_some(s0, k2);
                        let j = choose|j: int|
                            0 <= j < s0.len() && s0[j].0 == k2 && lookup(s0, k2) == Some(s0[j].1);
                        if j < i {
                            assert(s1[j] == s0[j]);
                            lemma_lookup_at(s1, j);
                        } else {
                            assert(s1[j - 1] == s0[j]);
                            lemma_lookup_at(s1, j - 1);
                        }
                    } else {
                        assert forall|j: int| 0 <= j < s1.len() implies s1[j].0 != k2 by {
                            let jj = if j < i {
                                j
                            } else {
                                j + 1
                            };
                            assert(s1[j] == s0[jj]);
                            if s0[jj].0 == k2 {
                                lemma_lookup_at(s0, jj);
                            }
                        }
                        lemma_lookup_absent(s1, k2);
                    }
                }
                assert(self@ =~= old(self)@.remove(*k));
                Some(v)
            },
            None => {
                assert(self@ =~= old(self)@.remove(*k));
                None
            },
        }
    }
}

/// The count stored under `k`, 0 where there is none.
pub open spec fn count_in<K>(m: Map<K, u64>, k: K) -> u64 {
    if m.contains_key(k) {
        m[k]
    } else {
        0
    }
}

impl<K: MapKey> KeyedMap<K, u64> {
    /// The count under `k`, 0 where there is none.
    pub fn count(&self, k: &K) -> (r: u64)
        requires
            self.wf(),
        ensures
            r == count_in(self@, *k),
    {
        match self.get(k) {
            Some(c) => *c,
            None => 0,
        }
    }

    /// Adds one to the count under `k`.
    pub fn increment(&mut self, k: K)
        requires
            old(self).wf(),
            count_in(old(self)@, k) < u64::MAX,
        ensures
            final(self).wf(),
            final(self)@ == old(self)@.insert(k, (count_in(old(self)@, k) + 1) as u64),
            keys_of(final(self).entries()) == if old(self)@.contains_key(k) {
                keys_of(old(self).entries())
            } else {
                keys_of(old(self).entries()).push(k)
            },
    {
        let c = self.count(&k);
        self.insert(k, c + 1);
    }
}

} // verus!
