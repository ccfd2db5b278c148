//! Rankings by message count or by reward points, and the cache that serves
//! the top lists for an hour.
use vstd::prelude::*;

use crate::ids::{AccountOwner, ChainId, MapKey};
use crate::keyed_map::KeyedMap;
use crate::ranking::{insert_ranked, lemma_sort_desc_take, sort_desc, Ranked};

verus! {

/// How long a computed top list is served, in microseconds.
pub const CACHE_TTL_MICROS: u64 = 3_600_000_000;

/// Whether a cache made at `generated_at` may still be served at `now`: less
/// than an hour has passed (a clock that reads earlier counts as no time).
pub open spec fn cache_fresh(generated_at: u64, now: u64) -> bool {
    now < generated_at || now - generated_at < CACHE_TTL_MICROS
}

/// The last computed top lists, and when the last of them was computed: one
/// time serves both lists.
pub struct LeaderboardCache {
    pub top_identities: Vec<(AccountOwner, u64)>,
    pub top_chains: Vec<(ChainId, u64)>,
    pub generated_at: u64,
}

impl LeaderboardCache {
    pub fn new() -> (r: LeaderboardCache)
        ensures
            r.top_identities@ == Seq::<(AccountOwner, u64)>::empty(),
            r.top_chains@ == Seq::<(ChainId, u64)>::empty(),
            r.generated_at == 0,
    {
        LeaderboardCache { top_identities: Vec::new(), top_chains: Vec::new(), generated_at: 0 }
    }
}

pub fn is_cache_fresh(generated_at: u64, now: u64) -> (r: bool)
    ensures
        r == cache_fresh(generated_at, now),
{
    now < generated_at || now - generated_at < CACHE_TTL_MICROS
}

/// The entries of `m`, sorted by count with the largest first; equal counts
/// keep the order of `m`.
pub fn sorted_counts<K: MapKey>(m: &KeyedMap<K, u64>) -> (r: Vec<(K, u64)>) where
    (K, u64): Ranked,

    ensures
        r@ == sort_desc(m.entries()),
{
    let mut out: Vec<(K, u64)> = Vec::new();
    let n = m.len();
    let mut i: usize = 0;
    while i < n
        invariant
            n == m.entries().len(),
            i <= n,
            out@ == sort_desc(m.entries().take(i as int)),
        decreases n - i,
    {
        let e = *m.entry_at(i);
        proof {
            lemma_sort_desc_take(m.entries(), i as int);
        }
        insert_ranked(&mut out, e);
        i = i + 1;
    }
    assert(m.entries().take(n as int) =~= m.entries());
    out
}

} // verus!
