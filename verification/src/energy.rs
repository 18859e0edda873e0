//! Energy total samples taken every 15 minutes and the 15-minute intervals
//! between them. The cache keeps an unbroken run of samples exactly 15
//! minutes apart; the energies themselves are compared and subtracted by
//! the caller, which owns their floating-point values.

use std::collections::VecDeque;
use vstd::prelude::*;

verus! {

/// Seconds in 15 minutes.
pub const FIFTEEN_MINUTES_SECS: u64 = 900;

/// Samples kept: 48 hours of 15-minute intervals plus one.
pub const MAX_SAMPLES: usize = 193;

/// Energy totals at one point in time; the two counters (kWh) are kept as
/// the bit patterns of their IEEE-754 double values.
#[derive(Debug, Clone, Copy, PartialEq, Eq, Structural)]
pub struct EnergyTotalSample {
    /// Unix timestamp in seconds.
    pub ts: u64,
    /// Total energy fed into the grid, as double bits.
    pub feed_in_bits: u64,
    /// Total energy consumed from the grid, as double bits.
    pub grid_consumption_bits: u64,
}

/// `a - b`, or zero when `b > a` (`u64::saturating_sub`).
pub open spec fn saturating_sub(a: u64, b: u64) -> u64 {
    if a >= b {
        (a - b) as u64
    } else {
        0
    }
}

/// Whether a new sample continues the stored run: it follows the latest
/// sample by exactly 15 minutes and its counters did not go down.
pub open spec fn continues(s: Seq<EnergyTotalSample>, x: EnergyTotalSample, counters_monotonic: bool) -> bool {
    s.len() == 0 || (x.ts > s.last().ts && saturating_sub(x.ts, s.last().ts) == FIFTEEN_MINUTES_SECS
        && counters_monotonic)
}

/// The stored run after inserting `x`: the run is restarted when `x` does
/// not continue it, and only the newest `MAX_SAMPLES` samples are kept.
pub open spec fn after_insert(s: Seq<EnergyTotalSample>, x: EnergyTotalSample, counters_monotonic: bool) -> Seq<
    EnergyTotalSample,
> {
    let t = if continues(s, x, counters_monotonic) {
        s.push(x)
    } else {
        seq![x]
    };
    if t.len() > MAX_SAMPLES {
        t.skip(t.len() - MAX_SAMPLES)
    } else {
        t
    }
}

/// Whether consecutive samples are exactly 15 minutes apart.
pub open spec fn unbroken(s: Seq<EnergyTotalSample>) -> bool {
    forall|i: int| 0 < i < s.len() ==> #[trigger] s[i].ts == s[i - 1].ts + FIFTEEN_MINUTES_SECS
}

/// Index of the last sample at or before `to_ts`, or -1.
pub open spec fn last_at_or_before(s: Seq<EnergyTotalSample>, to_ts: u64) -> int
    decreases s.len(),
{
    if s.len() == 0 {
        -1
    } else if s.last().ts <= to_ts {
        s.len() - 1
    } else {
        last_at_or_before(s.drop_last(), to_ts)
    }
}

/// The interval candidates ending at index `idx` or before, walking back
/// while the end of the interval is not before `from_ts`; only pairs of
/// samples exactly 15 minutes apart are kept. In ascending order.
pub open spec fn walk_back(s: Seq<EnergyTotalSample>, idx: int, from_ts: u64) -> Seq<
    (EnergyTotalSample, EnergyTotalSample),
>
    decreases idx,
{
    if idx <= 0 || idx >= s.len() || s[idx].ts < from_ts {
        Seq::empty()
    } else {
        let rest = walk_back(s, idx - 1, from_ts);
        if saturating_sub(s[idx].ts, s[idx - 1].ts) == FIFTEEN_MINUTES_SECS {
            rest.push((s[idx - 1], s[idx]))
        } else {
            rest
        }
    }
}

/// The `(previous, current)` sample pairs of the 15-minute intervals whose
/// end lies in the queried range: starting from the latest sample at or
/// before `to_ts`, walking back until an end is before `from_ts`.
pub open spec fn interval_pairs(s: Seq<EnergyTotalSample>, from_ts: u64, to_ts: u64) -> Seq<
    (EnergyTotalSample, EnergyTotalSample),
> {
    if s.len() < 2 || from_ts > to_ts {
        Seq::empty()
    } else {
        walk_back(s, last_at_or_before(s, to_ts), from_ts)
    }
}

/// Cache of energy total samples.
pub struct EnergyIntervalCache {
    samples: VecDeque<EnergyTotalSample>,
}

impl View for EnergyIntervalCache {
    type V = Seq<EnergyTotalSample>;

    closed spec fn view(&self) -> Seq<EnergyTotalSample> {
        self.samples@
    }
}

impl EnergyIntervalCache {
    /// Creates an empty cache.
    pub fn new() -> (cache: Self)
        ensures
            cache@ == Seq::<EnergyTotalSample>::empty(),
    {
        EnergyIntervalCache { samples: VecDeque::with_capacity(MAX_SAMPLES) }
    }

    /// Removes all samples.
    pub fn clear(&mut self)
        ensures
            final(self)@ == Seq::<EnergyTotalSample>::empty(),
    {
        self.samples.clear();
    }

    /// Inserts a sample. The stored run is restarted when the sample does
    /// not follow the latest one by exactly 15 minutes or when
    /// `counters_monotonic` says its counters went down; only the newest
    /// `MAX_SAMPLES` samples are kept.
    pub fn insert(&mut self, sample: EnergyTotalSample, counters_monotonic: bool)
        ensures
            final(self)@ == after_insert(old(self)@, sample, counters_monotonic),
    {
        let n = self.samples.len();
        if n > 0 {
            let last = self.samples[n - 1];
            let has_expected_timestamp = sample.ts.saturating_sub(last.ts) == FIFTEEN_MINUTES_SECS;
            if sample.ts <= last.ts || !has_expected_timestamp || !counters_monotonic {
                self.samples.clear();
            }
        }
        self.samples.push_back(sample);
        let ghost t = self.samples@;
        assert(t =~= if continues(old(self)@, sample, counters_monotonic) {
            old(self)@.push(sample)
        } else {
            seq![sample]
        });
        while self.samples.len() > MAX_SAMPLES
            invariant
                t == (if continues(old(self)@, sample, counters_monotonic) {
                    old(self)@.push(sample)
                } else {
                    seq![sample]
                }),
                self.samples@.len() <= t.len(),
                self.samples@ == t.skip(t.len() - self.samples@.len()),
                t.len() > MAX_SAMPLES ==> self.samples@.len() >= MAX_SAMPLES,
                t.len() <= MAX_SAMPLES ==> self.samples@.len() == t.len(),
            decreases self.samples@.len(),
        {
            self.samples.pop_front();
            assert(self.samples@ =~= t.skip(t.len() - self.samples@.len()));
        }
        proof {
            if t.len() <= MAX_SAMPLES {
                assert(t.skip(0) =~= t);
            }
        }
        assert(self.samples@ =~= after_insert(old(self)@, sample, counters_monotonic));
    }

    /// The latest stored sample, if any.
    pub fn latest(&self) -> (r: Option<EnergyTotalSample>)
        ensures
            self@.len() == 0 ==> r is None,
            self@.len() > 0 ==> r == Some(self@.last()),
    {
        let n = self.samples.len();
        if n == 0 {
            None
        } else {
            Some(self.samples[n - 1])
        }
    }

    /// The `(previous, current)` sample pairs of the 15-minute intervals
    /// whose end lies in `[from_ts, to_ts]`, in ascending order. The caller
    /// keeps the pairs whose counters did not go down and computes their
    /// energies.
    pub fn query_intervals(&self, from_ts: u64, to_ts: u64) -> (r: Vec<
        (EnergyTotalSample, EnergyTotalSample),
    >)
        ensures
            r@ == interval_pairs(self@, from_ts, to_ts),
    {
        let s = &self.samples;
        let n = s.len();
        if n < 2 || from_ts > to_ts {
            return Vec::new();
        }
        let mut k: usize = n;
        assert(s@.take(n as int) =~= s@);
        while k > 0 && s[k - 1].ts > to_ts
            invariant
                k <= n,
                n == s@.len(),
                last_at_or_before(s@, to_ts) == last_at_or_before(s@.take(k as int), to_ts),
            decreases k,
        {
            assert(s@.take(k as int).drop_last() =~= s@.take(k - 1));
            k = k - 1;
        }
        if k == 0 {
            assert(s@.take(0).len() == 0);
            return Vec::new();
        }
        let top = k - 1;
        assert(s@.take(k as int).last() == s@[top as int]);
        assert(s@.take(k as int).len() == k);
        let mut low: usize = top;
        while low > 0 && s[low].ts >= from_ts
            invariant
                low <= top,
                top < n,
                n == s@.len(),
                forall|j: int| low < j <= top ==> j > 0 && #[trigger] s@[j].ts >= from_ts,
            decreases low,
        {
            low = low - 1;
        }
        let mut r: Vec<(EnergyTotalSample, EnergyTotalSample)> = Vec::new();
        let mut i = low;
        while i < top
            invariant
                low <= i <= top,
                top < n,
                n == s@.len(),
                forall|j: int| low < j <= top ==> j > 0 && #[trigger] s@[j].ts >= from_ts,
                low == 0 || s@[low as int].ts < from_ts,
                r@ == walk_back(s@, i as int, from_ts),
            decreases top - i,
        {
            let current = s[i + 1];
            let previous = s[i];
            if current.ts.saturating_sub(previous.ts) == FIFTEEN_MINUTES_SECS {
                r.push((previous, current));
            }
            i = i + 1;
        }
        r
    }
}

/// The stored run stays unbroken: after any insertion consecutive samples
/// are exactly 15 minutes apart, and at most `MAX_SAMPLES` are kept.
pub proof fn lemma_insert_keeps_run_unbroken(
    s: Seq<EnergyTotalSample>,
    x: EnergyTotalSample,
    counters_monotonic: bool,
)
    requires
        unbroken(s),
        s.len() <= MAX_SAMPLES,
    ensures
        unbroken(after_insert(s, x, counters_monotonic)),
        after_insert(s, x, counters_monotonic).len() <= MAX_SAMPLES,
        after_insert(s, x, counters_monotonic).last() == x,
{
    let t = if continues(s, x, counters_monotonic) {
        s.push(x)
    } else {
        seq![x]
    };
    if continues(s, x, counters_monotonic) {
        assert forall|i: int| 0 < i < t.len() implies #[trigger] t[i].ts == t[i - 1].ts
            + FIFTEEN_MINUTES_SECS by {
            if i < s.len() {
                assert(t[i] == s[i] && t[i - 1] == s[i - 1]);
            } else {
                assert(t[i] == x && t[i - 1] == s.last());
            }
        }
    }
    assert(unbroken(t));
    assert(t.last() == x);
    let a = after_insert(s, x, counters_monotonic);
    if t.len() > MAX_SAMPLES {
        let d = t.len() - MAX_SAMPLES;
        let u = t.skip(d);
        assert(a == u);
        assert forall|i: int| 0 < i < u.len() implies #[trigger] u[i].ts == u[i - 1].ts
            + FIFTEEN_MINUTES_SECS by {
            assert(u[i] == t[i + d]);
            assert(u[i - 1] == t[i - 1 + d]);
        }
        assert(u.last() == t.last());
    } else {
        assert(a == t);
    }
}

proof fn lemma_unbroken_ordered(s: Seq<EnergyTotalSample>, j: int, k: int)
    requires
        unbroken(s),
        0 <= j <= k < s.len(),
    ensures
        s[j].ts <= s[k].ts,
    decreases k - j,
{
    if j < k {
        lemma_unbroken_ordered(s, j, k - 1);
        assert(s[k].ts == s[k - 1].ts + FIFTEEN_MINUTES_SECS);
    }
}

/// Every reported interval joins two samples exactly 15 minutes apart, and
/// its end lies in the queried range (for a run kept unbroken).
pub proof fn lemma_interval_pairs_in_range(s: Seq<EnergyTotalSample>, from_ts: u64, to_ts: u64)
    requires
        unbroken(s),
    ensures
        forall|i: int|
            0 <= i < interval_pairs(s, from_ts, to_ts).len() ==> {
                let p = #[trigger] interval_pairs(s, from_ts, to_ts)[i];
                &&& p.1.ts == p.0.ts + FIFTEEN_MINUTES_SECS
                &&& from_ts <= p.1.ts <= to_ts
            },
{
    if s.len() >= 2 && from_ts <= to_ts {
        let k = last_at_or_before(s, to_ts);
        lemma_last_at_or_before(s, to_ts);
        assert forall|j: int| 0 <= j <= k implies #[trigger] s[j].ts <= to_ts by {
            lemma_unbroken_ordered(s, j, k);
        }
        lemma_walk_back(s, k, from_ts, to_ts);
    }
}

proof fn lemma_last_at_or_before(s: Seq<EnergyTotalSample>, to_ts: u64)
    ensures
        -1 <= last_at_or_before(s, to_ts) < s.len(),
        last_at_or_before(s, to_ts) >= 0 ==> s[last_at_or_before(s, to_ts)].ts <= to_ts,
        forall|j: int| last_at_or_before(s, to_ts) < j < s.len() ==> #[trigger] s[j].ts > to_ts,
    decreases s.len(),
{
    if s.len() > 0 && s.last().ts > to_ts {
        let d = s.drop_last();
        lemma_last_at_or_before(d, to_ts);
        assert forall|j: int| last_at_or_before(s, to_ts) < j < s.len() implies #[trigger] s[j].ts
            > to_ts by {
            if j < d.len() {
                assert(s[j] == d[j]);
            }
        }
    }
}

proof fn lemma_walk_back(s: Seq<EnergyTotalSample>, idx: int, from_ts: u64, to_ts: u64)
    requires
        idx < s.len(),
        forall|j: int| 0 <= j <= idx ==> #[trigger] s[j].ts <= to_ts,
    ensures
        forall|i: int|
            0 <= i < walk_back(s, idx, from_ts).len() ==> {
                let p = #[trigger] walk_back(s, idx, from_ts)[i];
                &&& p.1.ts == p.0.ts + FIFTEEN_MINUTES_SECS
                &&& from_ts <= p.1.ts <= to_ts
            },
    decreases idx,
{
    if !(idx <= 0 || idx >= s.len() || s[idx].ts < from_ts) {
        lemma_walk_back(s, idx - 1, from_ts, to_ts);
        let rest = walk_back(s, idx - 1, from_ts);
        assert(s[idx].ts <= to_ts);
        assert forall|i: int| 0 <= i < walk_back(s, idx, from_ts).len() implies {
            let p = #[trigger] walk_back(s, idx, from_ts)[i];
            &&& p.1.ts == p.0.ts + FIFTEEN_MINUTES_SECS
            &&& from_ts <= p.1.ts <= to_ts
        } by {
            if i < rest.len() {
                assert(walk_back(s, idx, from_ts)[i] == rest[i]);
            }
        }
    }
}

} // verus!
