//! Ordering by a count or a time, largest first, with ties kept in the order
//! in which the items came.
use vstd::prelude::*;

use crate::ids::MapKey;

verus! {

/// Items that are ranked by an unsigned value: a count, a reward total or a time.
pub trait Ranked: Sized {
    spec fn rank_key(&self) -> u64;

    fn key(&self) -> (r: u64)
        ensures
            r == self.rank_key(),
    ;
}

/// `s` with `e` placed after every item whose key is at least `e`'s.
pub open spec fn insert_desc<T: Ranked>(s: Seq<T>, e: T) -> Seq<T>
    decreases s.len(),
{
    if s.len() == 0 {
        seq![e]
    } else if s[0].rank_key() >= e.rank_key() {
        seq![s[0]] + insert_desc(s.drop_first(), e)
    } else {
        seq![e] + s
    }
}

/// The stable sort of `s` by key, largest first: items with equal keys keep
/// their order in `s`.
pub open spec fn sort_desc<T: Ranked>(s: Seq<T>) -> Seq<T>
    decreases s.len(),
{
    if s.len() == 0 {
        s
    } else {
        insert_desc(sort_desc(s.drop_last()), s.last())
    }
}

/// Keys never grow from one item to a later one.
pub open spec fn sorted_desc<T: Ranked>(s: Seq<T>) -> bool {
    forall|i: int, j: int| 0 <= i < j < s.len() ==> s[i].rank_key() >= s[j].rank_key()
}

/// The first `n` items of `s`, or all of them where there are fewer.
pub open spec fn prefix<T>(s: Seq<T>, n: int) -> Seq<T> {
    if n < s.len() {
        s.take(n)
    } else {
        s
    }
}

/// The 1-based position of the first entry with key `k`, or 0 where there is none.
pub open spec fn rank_of<K, V>(s: Seq<(K, V)>, k: K) -> nat
    decreases s.len(),
{
    if s.len() == 0 {
        0
    } else if s[0].0 == k {
        1
    } else if rank_of(s.drop_first(), k) == 0 {
        0
    } else {
        rank_of(s.drop_first(), k) + 1
    }
}

/// Placing `e` at the first position whose key is below `e`'s is `insert_desc`.
proof fn lemma_insert_desc_at<T: Ranked>(s: Seq<T>, e: T, p: int)
    requires
        0 <= p <= s.len(),
        forall|j: int| 0 <= j < p ==> s[j].rank_key() >= e.rank_key(),
        p == s.len() || s[p].rank_key() < e.rank_key(),
    ensures
        insert_desc(s, e) == s.insert(p, e),
    decreases s.len(),
{
    if s.len() == 0 {
        assert(s.insert(p, e) =~= seq![e]);
    } else if p == 0 {
        assert(s.insert(p, e) =~= seq![e] + s);
    } else {
        let t = s.drop_first();
        assert forall|j: int| 0 <= j < p - 1 implies t[j].rank_key() >= e.rank_key() by {
            assert(t[j] == s[j + 1]);
        }
        if p < s.len() {
            assert(t[p - 1] == s[p]);
        }
        lemma_insert_desc_at(t, e, p - 1);
        assert(s.insert(p, e) =~= seq![s[0]] + t.insert(p - 1, e));
    }
}

/// `insert_desc` keeps a sorted list sorted.
pub proof fn lemma_insert_desc_sorted<T: Ranked>(s: Seq<T>, e: T)
    requires
        sorted_desc(s),
    ensures
        sorted_desc(insert_desc(s, e)),
        insert_desc(s, e).len() == s.len() + 1,
        insert_desc(s, e).to_multiset() == s.to_multiset().insert(e),
    decreases s.len(),
{
    broadcast use vstd::seq_lib::group_to_multiset_ensures;

    let r = insert_desc(s, e);
    if s.len() == 0 {
        assert(r =~= seq![e]);
        assert(s =~= Seq::<T>::empty());
        assert(r =~= Seq::<T>::empty().push(e));
    } else if s[0].rank_key() >= e.rank_key() {
        let t = s.drop_first();
        assert(sorted_desc(t)) by {
            assert forall|i: int, j: int| 0 <= i < j < t.len() implies t[i].rank_key()
                >= t[j].rank_key() by {
                assert(t[i] == s[i + 1] && t[j] == s[j + 1]);
            }
        }
        lemma_insert_desc_sorted(t, e);
        let rt = insert_desc(t, e);
        assert(r =~= seq![s[0]] + rt);
        assert forall|i: int, j: int| 0 <= i < j < r.len() implies r[i].rank_key()
            >= r[j].rank_key() by {
            if i == 0 {
                assert(r[j] == rt[j - 1]);
                assert(rt.to_multiset().count(rt[j - 1]) > 0);
                assert(rt[j - 1] == e || t.to_multiset().count(rt[j - 1]) > 0);
                if rt[j - 1] != e {
                    let m = choose|m: int| 0 <= m < t.len() && t[m] == rt[j - 1];
                    assert(t[m] == s[m + 1]);
                }
            } else {
                assert(r[i] == rt[i - 1] && r[j] == rt[j - 1]);
            }
        }
        assert(s =~= seq![s[0]] + t);
        vstd::seq_lib::lemma_multiset_commutative(seq![s[0]], t);
        vstd::seq_lib::lemma_multiset_commutative(seq![s[0]], rt);
    } else {
        assert(r =~= seq![e] + s);
        assert forall|i: int, j: int| 0 <= i < j < r.len() implies r[i].rank_key()
            >= r[j].rank_key() by {
            if i == 0 {
                assert(r[j] == s[j - 1]);
                assert(s[0].rank_key() >= s[j - 1].rank_key());
            } else {
                assert(r[i] == s[i - 1] && r[j] == s[j - 1]);
            }
        }
        vstd::seq_lib::lemma_multiset_commutative(seq![e], s);
    }
}

/// The stable sort is sorted, and holds the same items.
pub proof fn lemma_sort_desc_sorted<T: Ranked>(s: Seq<T>)
    ensures
        sorted_desc(sort_desc(s)),
        sort_desc(s).len() == s.len(),
        sort_desc(s).to_multiset() == s.to_multiset(),
    decreases s.len(),
{
    broadcast use vstd::seq_lib::group_to_multiset_ensures;

    if s.len() > 0 {
        lemma_sort_desc_sorted(s.drop_last());
        lemma_insert_desc_sorted(sort_desc(s.drop_last()), s.last());
        assert(s =~= s.drop_last().push(s.last()));
    }
}

/// Sorting one more item at the end is inserting it into the sort of the rest.
pub proof fn lemma_sort_desc_take<T: Ranked>(s: Seq<T>, i: int)
    requires
        0 <= i < s.len(),
    ensures
        sort_desc(s.take(i + 1)) == insert_desc(sort_desc(s.take(i)), s[i]),
{
    assert(s.take(i + 1).drop_last() =~= s.take(i));
}

/// Inserts `e` into the list `v`, sorted by key with the largest first, after
/// every item whose key is at least `e`'s.
pub fn insert_ranked<T: Ranked>(v: &mut Vec<T>, e: T)
    ensures
        final(v)@ == insert_desc(old(v)@, e),
{
    let k = e.key();
    let n = v.len();
    let mut p: usize = 0;
    while p < n && v[p].key() >= k
        invariant
            n == v@.len(),
            p <= n,
            k == e.rank_key(),
            forall|j: int| 0 <= j < p ==> v@[j].rank_key() >= e.rank_key(),
        decreases n - p,
    {
        p = p + 1;
    }
    proof {
        lemma_insert_desc_at(v@, e, p as int);
    }
    v.insert(p, e);
}

/// Keeps the first `limit` items of `v`.
pub fn keep_prefix<T>(v: &mut Vec<T>, limit: u32)
    ensures
        final(v)@ == prefix(old(v)@, limit as int),
{
    if (limit as usize) < v.len() {
        v.truncate(limit as usize);
    }
}

/// The 1-based position of the first entry of `v` with key `k`, or 0.
pub fn rank_in<K: MapKey, V>(v: &Vec<(K, V)>, k: &K) -> (r: usize)
    ensures
        r == rank_of(v@, *k),
{
    let n = v.len();
    let mut i: usize = 0;
    assert(v@.skip(0) =~= v@);
    while i < n
        invariant
            n == v@.len(),
            i <= n,
            forall|j: int| 0 <= j < i ==> v@[j].0 != *k,
            rank_of(v@, *k) == if rank_of(v@.skip(i as int), *k) == 0 {
                0
            } else {
                rank_of(v@.skip(i as int), *k) + i
            },
        decreases n - i,
    {
        let ghost t = v@.skip(i as int);
        assert(t[0] == v@[i as int]);
        if v[i].0.same_key(k) {
            return i + 1;
        }
        assert(t.drop_first() =~= v@.skip(i + 1));
        i = i + 1;
    }
    0
}

} // verus!
