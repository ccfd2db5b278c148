//! Message counts per chain and per hour, day and month.
use vstd::prelude::*;

use crate::ids::{ChainId, ChainIndex};
use crate::keyed_map::{count_in, KeyedMap};

verus! {

pub const HOUR_MICROS: u64 = 3_600_000_000;

pub const DAY_MICROS: u64 = 86_400_000_000;

/// A month is thirty days.
pub const MONTH_MICROS: u64 = 2_592_000_000_000;

/// The bucket of a chain that a microsecond timestamp falls in, for buckets `width` long.
pub open spec fn bucket_of(chain: ChainId, timestamp: u64, width: u64) -> ChainIndex
    recommends
        width > 0,
{
    ChainIndex { chain, index: timestamp / width }
}

/// `m` with one more event counted in `bucket`.
pub open spec fn counted(m: Map<ChainIndex, u64>, bucket: ChainIndex) -> Map<ChainIndex, u64> {
    m.insert(bucket, (count_in(m, bucket) + 1) as u64)
}

/// Whether every count of `m` is at most `bound`.
pub open spec fn bounded_by(m: Map<ChainIndex, u64>, bound: u64) -> bool {
    forall|b: ChainIndex| #[trigger] m.contains_key(b) ==> m[b] <= bound
}

/// Whether `r` lists the buckets `start..=end` of `chain`, each with its count in
/// `m` (0 for a bucket that never saw an event).
pub open spec fn is_bucket_range(
    r: Seq<(u64, u64)>,
    m: Map<ChainIndex, u64>,
    chain: ChainId,
    start: u64,
    end: u64,
) -> bool {
    &&& r.len() == if start <= end {
        end - start + 1
    } else {
        0
    }
    &&& forall|i: int|
        0 <= i < r.len() ==> #[trigger] r[i] == ((start + i) as u64, count_in(
            m,
            ChainIndex { chain, index: (start + i) as u64 },
        ))
}

/// The three bucket counters.
pub struct TimeBuckets {
    pub hourly: KeyedMap<ChainIndex, u64>,
    pub daily: KeyedMap<ChainIndex, u64>,
    pub monthly: KeyedMap<ChainIndex, u64>,
}

impl TimeBuckets {
    /// Every count is at most `bound`.
    pub open spec fn wf(&self, bound: u64) -> bool {
        &&& self.hourly.wf()
        &&& self.daily.wf()
        &&& self.monthly.wf()
        &&& bounded_by(self.hourly@, bound)
        &&& bounded_by(self.daily@, bound)
        &&& bounded_by(self.monthly@, bound)
    }

    pub fn new() -> (r: TimeBuckets)
        ensures
            r.wf(0),
            r.hourly@ == Map::<ChainIndex, u64>::empty(),
            r.daily@ == Map::<ChainIndex, u64>::empty(),
            r.monthly@ == Map::<ChainIndex, u64>::empty(),
    {
        TimeBuckets { hourly: KeyedMap::new(), daily: KeyedMap::new(), monthly: KeyedMap::new() }
    }

    /// Counts one event at `timestamp` on `chain` in its hour, its day and its month.
    pub fn record(&mut self, chain: ChainId, timestamp: u64, bound: u64)
        requires
            old(self).wf(bound),
            bound < u64::MAX,
        ensures
            final(self).wf((bound + 1) as u64),
            final(self).hourly@ == counted(old(self).hourly@, bucket_of(chain, timestamp, HOUR_MICROS)),
            final(self).daily@ == counted(old(self).daily@, bucket_of(chain, timestamp, DAY_MICROS)),
            final(self).monthly@ == counted(
                old(self).monthly@,
                bucket_of(chain, timestamp, MONTH_MICROS),
            ),
    {
        self.hourly.increment(ChainIndex { chain, index: timestamp / HOUR_MICROS });
        self.daily.increment(ChainIndex { chain, index: timestamp / DAY_MICROS });
        self.monthly.increment(ChainIndex { chain, index: timestamp / MONTH_MICROS });
    }
}

/// The counts of the buckets `start..=end` of `chain`, one entry per bucket,
/// 0 for a bucket that never saw an event.
pub fn bucket_range(m: &KeyedMap<ChainIndex, u64>, chain: ChainId, start: u64, end: u64) -> (r: Vec<
    (u64, u64),
>)
    requires
        m.wf(),
    ensures
        is_bucket_range(r@, m@, chain, start, end),
{
    let mut out: Vec<(u64, u64)> = Vec::new();
    if start > end {
        return out;
    }
    let mut b: u64 = start;
    loop
        invariant_except_break
            start <= b <= end,
            out@.len() == b - start,
        invariant
            m.wf(),
            start <= end,
            forall|i: int|
                0 <= i < out@.len() ==> #[trigger] out@[i] == ((start + i) as u64, count_in(
                    m@,
                    ChainIndex { chain, index: (start + i) as u64 },
                )),
        ensures
            out@.len() == end - start + 1,
        decreases end - b,
    {
        let c = m.count(&ChainIndex { chain, index: b });
        out.push((b, c));
        if b == end {
            break;
        }
        b = b + 1;
    }
    out
}

} // verus!
