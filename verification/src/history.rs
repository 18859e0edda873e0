//! Power samples and the rolling in-memory history of them: insertion with
//! pruning by a retention window, range queries, ordering by timestamp and
//! grouping into time buckets.

use std::collections::VecDeque;
use vstd::prelude::*;

verus! {

/// Unix timestamp in seconds.
pub type UnixTs = u64;

/// A snapshot of the metrics at one point in time. The three readings are
/// kept as the bit patterns of their IEEE-754 double values (kW for power,
/// percent for the battery state of charge); this module only orders,
/// selects and groups samples by their timestamp.
#[derive(Debug, Clone, Copy, PartialEq, Eq, Structural)]
pub struct DataSample {
    /// Unix timestamp in seconds.
    pub ts: UnixTs,
    /// Power production, as double bits.
    pub production_bits: u64,
    /// Power consumption, as double bits.
    pub consumption_bits: u64,
    /// Battery state of charge, as double bits.
    pub batt_soc_bits: u64,
}

// ---------------------------------------------------------------------------
// Ordering by timestamp
// ---------------------------------------------------------------------------

/// Whether samples are in non-decreasing timestamp order.
pub open spec fn sorted_by_ts(s: Seq<DataSample>) -> bool {
    forall|i: int, j: int| 0 <= i <= j < s.len() ==> s[i].ts <= s[j].ts
}

/// `x` placed after every element of `s` whose timestamp is not greater.
pub open spec fn insert_by_ts(s: Seq<DataSample>, x: DataSample) -> Seq<DataSample>
    decreases s.len(),
{
    if s.len() == 0 || s.last().ts <= x.ts {
        s.push(x)
    } else {
        insert_by_ts(s.drop_last(), x).push(s.last())
    }
}

/// The stable sort of samples by timestamp: samples with equal timestamps
/// keep their relative order.
pub open spec fn sort_by_ts(s: Seq<DataSample>) -> Seq<DataSample>
    decreases s.len(),
{
    if s.len() == 0 {
        s
    } else {
        insert_by_ts(sort_by_ts(s.drop_last()), s.last())
    }
}

proof fn lemma_insert_by_ts_at(s: Seq<DataSample>, x: DataSample, pos: int)
    requires
        0 <= pos <= s.len(),
        forall|j: int| pos <= j < s.len() ==> #[trigger] s[j].ts > x.ts,
        pos > 0 ==> s[pos - 1].ts <= x.ts,
    ensures
        insert_by_ts(s, x) == s.take(pos).push(x) + s.skip(pos),
    decreases s.len() - pos,
{
    if pos == s.len() {
        assert(s.take(pos) =~= s);
        assert(s.take(pos).push(x) + s.skip(pos) =~= s.push(x));
    } else {
        lemma_insert_by_ts_at(s.drop_last(), x, pos);
        assert(s.drop_last().take(pos) =~= s.take(pos));
        assert((s.take(pos).push(x) + s.drop_last().skip(pos)).push(s.last()) =~= s.take(pos).push(
            x,
        ) + s.skip(pos));
    }
}

/// Inserting into a sorted sequence keeps it sorted and adds exactly `x`.
pub proof fn lemma_insert_by_ts_sorted(s: Seq<DataSample>, x: DataSample)
    requires
        sorted_by_ts(s),
    ensures
        sorted_by_ts(insert_by_ts(s, x)),
        insert_by_ts(s, x).len() == s.len() + 1,
        insert_by_ts(s, x).to_multiset() == s.to_multiset().insert(x),
    decreases s.len(),
{
    broadcast use vstd::seq_lib::group_to_multiset_ensures;

    if s.len() == 0 || s.last().ts <= x.ts {
    } else {
        lemma_insert_by_ts_sorted(s.drop_last(), x);
        let r = insert_by_ts(s.drop_last(), x);
        assert(s.drop_last().push(s.last()) =~= s);
        assert forall|i: int, j: int| 0 <= i <= j < r.len() + 1 implies #[trigger] r.push(
            s.last(),
        )[i].ts <= #[trigger] r.push(s.last())[j].ts by {
            if j == r.len() && i < r.len() {
                assert(r.to_multiset().count(r[i]) > 0);
                assert(s.drop_last().to_multiset().insert(x).count(r[i]) > 0);
                if r[i] != x {
                    assert(s.drop_last().to_multiset().count(r[i]) > 0);
                    assert(s.drop_last().contains(r[i]));
                    let k = choose|k: int| 0 <= k < s.drop_last().len() && s.drop_last()[k] == r[i];
                    assert(s[k] == r[i]);
                }
            }
        }
    }
}

/// The stable sort orders by timestamp and keeps exactly the same samples.
pub proof fn lemma_sort_by_ts(s: Seq<DataSample>)
    ensures
        sorted_by_ts(sort_by_ts(s)),
        sort_by_ts(s).to_multiset() == s.to_multiset(),
        sort_by_ts(s).len() == s.len(),
    decreases s.len(),
{
    broadcast use vstd::seq_lib::group_to_multiset_ensures;

    if s.len() > 0 {
        lemma_sort_by_ts(s.drop_last());
        lemma_insert_by_ts_sorted(sort_by_ts(s.drop_last()), s.last());
        assert(s.drop_last().push(s.last()) =~= s);
    }
}

/// Samples sorted by timestamp, stably.
pub fn sort_samples(samples: &[DataSample]) -> (sorted: Vec<DataSample>)
    ensures
        sorted@ == sort_by_ts(samples@),
{
    let mut sorted: Vec<DataSample> = Vec::new();
    let mut i: usize = 0;
    while i < samples.len()
        invariant
            i <= samples@.len(),
            sorted@ == sort_by_ts(samples@.take(i as int)),
        decreases samples@.len() - i,
    {
        let x = samples[i];
        proof {
            lemma_sort_by_ts(samples@.take(i as int));
        }
        let mut pos = sorted.len();
        while pos > 0 && sorted[pos - 1].ts > x.ts
            invariant
                pos <= sorted@.len(),
                forall|j: int| pos <= j < sorted@.len() ==> #[trigger] sorted@[j].ts > x.ts,
            decreases pos,
        {
            pos = pos - 1;
        }
        proof {
            lemma_insert_by_ts_at(sorted@, x, pos as int);
            assert(samples@.take(i + 1).drop_last() =~= samples@.take(i as int));
        }
        sorted.insert(pos, x);
        assert(sorted@ =~= insert_by_ts(sort_by_ts(samples@.take(i as int)), x));
        i = i + 1;
    }
    assert(samples@.take(samples@.len() as int) =~= samples@);
    sorted
}

// ---------------------------------------------------------------------------
// The rolling history
// ---------------------------------------------------------------------------

/// `now - retention`, or zero when the retention reaches back past zero.
pub open spec fn cutoff_ts(now: u64, retention: u64) -> u64 {
    if now >= retention {
        (now - retention) as u64
    } else {
        0
    }
}

/// Whether a sample is not older than `cutoff`.
pub open spec fn not_older_than(cutoff: u64) -> spec_fn(DataSample) -> bool {
    |s: DataSample| s.ts >= cutoff
}

/// `s` without any sample older than `cutoff`, the rest in order.
pub open spec fn prune(s: Seq<DataSample>, cutoff: u64) -> Seq<DataSample> {
    s.filter(not_older_than(cutoff))
}

/// Whether a sample's timestamp lies in `[from_ts, to_ts]`.
pub open spec fn in_range(from_ts: u64, to_ts: u64) -> spec_fn(DataSample) -> bool {
    |s: DataSample| from_ts <= s.ts && s.ts <= to_ts
}

/// In-memory rolling history of the most recent samples, oldest first.
pub struct HistoryCache {
    samples: VecDeque<DataSample>,
    retention_secs: u64,
}

impl View for HistoryCache {
    type V = Seq<DataSample>;

    closed spec fn view(&self) -> Seq<DataSample> {
        self.samples@
    }
}

impl HistoryCache {
    /// The retention window in seconds.
    pub closed spec fn retention(&self) -> u64 {
        self.retention_secs
    }

    /// Creates an empty history with the given retention window in seconds.
    pub fn new(retention_secs: u64) -> (cache: Self)
        ensures
            cache@ == Seq::<DataSample>::empty(),
            cache.retention() == retention_secs,
    {
        HistoryCache { samples: VecDeque::new(), retention_secs }
    }

    /// The configured retention window in seconds.
    pub fn retention_secs(&self) -> (r: u64)
        ensures
            r == self.retention(),
    {
        self.retention_secs
    }

    /// Drops every sample older than `retention` before `now_ts`.
    fn prune_locked(&mut self, now_ts: u64)
        ensures
            final(self)@ == prune(old(self)@, cutoff_ts(now_ts, old(self).retention())),
            final(self).retention() == old(self).retention(),
    {
        let cutoff = now_ts.saturating_sub(self.retention_secs);
        let mut kept: VecDeque<DataSample> = VecDeque::new();
        let mut i: usize = 0;
        while i < self.samples.len()
            invariant
                i <= self.samples@.len(),
                kept@ == self.samples@.take(i as int).filter(not_older_than(cutoff)),
            decreases self.samples@.len() - i,
        {
            let sample = self.samples[i];
            proof {
                reveal(Seq::filter);
                assert(self.samples@.take(i + 1).drop_last() =~= self.samples@.take(i as int));
            }
            if sample.ts >= cutoff {
                kept.push_back(sample);
            }
            i = i + 1;
        }
        assert(self.samples@.take(self.samples@.len() as int) =~= self.samples@);
        self.samples = kept;
    }

    /// Inserts one sample at the end, then drops every sample older than the
    /// retention window before its timestamp.
    pub fn insert(&mut self, sample: DataSample)
        ensures
            final(self)@ == prune(old(self)@.push(sample), cutoff_ts(sample.ts, old(self).retention())),
            final(self).retention() == old(self).retention(),
    {
        self.samples.push_back(sample);
        self.prune_locked(sample.ts);
    }

    /// Inserts restored samples: sorted by timestamp, appended, then every
    /// sample older than the retention window before the newest of them is
    /// dropped. Nothing happens for an empty list.
    pub fn insert_many(&mut self, samples: Vec<DataSample>)
        ensures
            samples@.len() == 0 ==> final(self)@ == old(self)@,
            samples@.len() > 0 ==> final(self)@ == prune(
                old(self)@ + sort_by_ts(samples@),
                cutoff_ts(sort_by_ts(samples@).last().ts, old(self).retention()),
            ),
            final(self).retention() == old(self).retention(),
    {
        if samples.len() == 0 {
            return ;
        }
        let sorted = sort_samples(samples.as_slice());
        proof {
            lemma_sort_by_ts(samples@);
        }
        let newest_ts = sorted[sorted.len() - 1].ts;
        let mut i: usize = 0;
        let ghost start = self.samples@;
        while i < sorted.len()
            invariant
                i <= sorted@.len(),
                self.samples@ =~= start + sorted@.take(i as int),
                self.retention_secs == old(self).retention_secs,
            decreases sorted@.len() - i,
        {
            self.samples.push_back(sorted[i]);
            i = i + 1;
        }
        assert(sorted@.take(sorted@.len() as int) =~= sorted@);
        self.prune_locked(newest_ts);
    }

    /// The samples with timestamps in `[from_ts, to_ts]`, in stored order;
    /// empty when `from_ts > to_ts`.
    pub fn query(&self, from_ts: UnixTs, to_ts: UnixTs) -> (r: Vec<DataSample>)
        ensures
            from_ts > to_ts ==> r@ == Seq::<DataSample>::empty(),
            from_ts <= to_ts ==> r@ == self@.filter(in_range(from_ts, to_ts)),
    {
        if from_ts > to_ts {
            return Vec::new();
        }
        let mut r: Vec<DataSample> = Vec::new();
        let mut i: usize = 0;
        while i < self.samples.len()
            invariant
                i <= self.samples@.len(),
                r@ == self.samples@.take(i as int).filter(in_range(from_ts, to_ts)),
            decreases self.samples@.len() - i,
        {
            let s = self.samples[i];
            proof {
                reveal(Seq::filter);
                assert(self.samples@.take(i + 1).drop_last() =~= self.samples@.take(i as int));
            }
            if from_ts <= s.ts && s.ts <= to_ts {
                r.push(s);
            }
            i = i + 1;
        }
        assert(self.samples@.take(self.samples@.len() as int) =~= self.samples@);
        r
    }
}

// ---------------------------------------------------------------------------
// Time buckets
// ---------------------------------------------------------------------------

/// The start of the bucket of size `bucket_secs` that holds `ts`.
pub open spec fn bucket_start(ts: u64, bucket_secs: u64) -> u64 {
    (ts - ts % bucket_secs) as u64
}

/// Aligns a timestamp to the start of its bucket.
pub fn align_to_bucket(ts: UnixTs, bucket_secs: u64) -> (r: UnixTs)
    requires
        bucket_secs > 0,
    ensures
        r == bucket_start(ts, bucket_secs),
        r <= ts,
        r % bucket_secs == 0,
        ts - r < bucket_secs,
{
    assert(ts % bucket_secs <= ts) by (nonlinear_arith)
        requires
            bucket_secs > 0,
    ;
    assert((ts - ts % bucket_secs) % (bucket_secs as int) == 0) by (nonlinear_arith)
        requires
            bucket_secs > 0,
    ;
    ts - ts % bucket_secs
}

/// The samples of one time bucket.
pub struct BucketGroup {
    /// Start of the bucket.
    pub start: UnixTs,
    /// The bucket's samples, in timestamp order.
    pub samples: Vec<DataSample>,
}

/// The samples of all groups, in order.
pub open spec fn flatten_groups(groups: Seq<BucketGroup>) -> Seq<DataSample>
    decreases groups.len(),
{
    if groups.len() == 0 {
        Seq::empty()
    } else {
        flatten_groups(groups.drop_last()) + groups.last().samples@
    }
}

/// Whether `groups` cuts `sorted` into maximal runs of samples that share a
/// bucket: the runs concatenate to `sorted`, none is empty, every sample of
/// a run lies in the run's bucket, and neighbouring runs differ in bucket.
pub open spec fn groups_by_bucket(
    groups: Seq<BucketGroup>,
    sorted: Seq<DataSample>,
    bucket_secs: u64,
) -> bool {
    &&& flatten_groups(groups) == sorted
    &&& forall|g: int| 0 <= g < groups.len() ==> #[trigger] groups[g].samples@.len() > 0
    &&& forall|g: int, i: int|
        0 <= g < groups.len() && 0 <= i < groups[g].samples@.len() ==> bucket_start(
            #[trigger] groups[g].samples@[i].ts,
            bucket_secs,
        ) == groups[g].start
    &&& forall|g: int| 0 < g < groups.len() ==> #[trigger] groups[g].start != groups[g - 1].start
}

/// Groups samples by time bucket: the samples are sorted by timestamp and
/// cut into runs that share a bucket start. Empty when there are no samples
/// or the bucket size is zero.
pub fn group_by_bucket(samples: &[DataSample], bucket_secs: u64) -> (groups: Vec<BucketGroup>)
    ensures
        samples@.len() == 0 || bucket_secs == 0 ==> groups@.len() == 0,
        samples@.len() > 0 && bucket_secs > 0 ==> groups_by_bucket(
            groups@,
            sort_by_ts(samples@),
            bucket_secs,
        ),
{
    let mut groups: Vec<BucketGroup> = Vec::new();
    if samples.len() == 0 || bucket_secs == 0 {
        return groups;
    }
    let sorted = sort_samples(samples);
    proof {
        lemma_sort_by_ts(samples@);
    }
    let mut current_start = align_to_bucket(sorted[0].ts, bucket_secs);
    let mut current: Vec<DataSample> = Vec::new();
    let mut i: usize = 0;
    while i < sorted.len()
        invariant
            bucket_secs > 0,
            i <= sorted@.len(),
            sorted@.len() > 0,
            flatten_groups(groups@) + current@ == sorted@.take(i as int),
            i > 0 ==> current@.len() > 0,
            i == 0 ==> current@.len() == 0 && current_start == bucket_start(sorted@[0].ts, bucket_secs),
            forall|j: int| 0 <= j < current@.len() ==> bucket_start(#[trigger] current@[j].ts, bucket_secs)
                == current_start,
            forall|g: int| 0 <= g < groups@.len() ==> #[trigger] groups@[g].samples@.len() > 0,
            forall|g: int, j: int|
                0 <= g < groups@.len() && 0 <= j < groups@[g].samples@.len() ==> bucket_start(
                    #[trigger] groups@[g].samples@[j].ts,
                    bucket_secs,
                ) == groups@[g].start,
            forall|g: int| 0 < g < groups@.len() ==> #[trigger] groups@[g].start != groups@[g - 1].start,
            groups@.len() > 0 ==> groups@.last().start != current_start,
        decreases sorted@.len() - i,
    {
        let s = sorted[i];
        let start = align_to_bucket(s.ts, bucket_secs);
        if start != current_start {
            let ghost before = groups@;
            let finished = BucketGroup { start: current_start, samples: current };
            groups.push(finished);
            assert(groups@.drop_last() == before);
            current = Vec::new();
            current_start = start;
        }
        current.push(s);
        assert(sorted@.take(i + 1) =~= sorted@.take(i as int).push(s));
        i = i + 1;
    }
    let ghost before = groups@;
    groups.push(BucketGroup { start: current_start, samples: current });
    assert(groups@.drop_last() == before);
    assert(sorted@.take(sorted@.len() as int) =~= sorted@);
    groups
}

} // verus!

verus! {

/// Pruning keeps exactly the samples not older than the cutoff: every
/// sample it keeps is one of the history's and not older than the cutoff,
/// every such sample of the history is kept, time order is kept, and a
/// newest sample not older than the cutoff stays the newest.
pub proof fn lemma_prune(s: Seq<DataSample>, cutoff: u64)
    ensures
        forall|i: int|
            0 <= i < prune(s, cutoff).len() ==> #[trigger] prune(s, cutoff)[i].ts >= cutoff
                && s.contains(prune(s, cutoff)[i]),
        forall|i: int| 0 <= i < s.len() && s[i].ts >= cutoff ==> prune(s, cutoff).contains(#[trigger] s[i]),
        sorted_by_ts(s) ==> sorted_by_ts(prune(s, cutoff)),
        s.len() > 0 && s.last().ts >= cutoff ==> prune(s, cutoff).len() > 0 && prune(s, cutoff).last()
            == s.last(),
    decreases s.len(),
{
    reveal(Seq::filter);
    if s.len() > 0 {
        let d = s.drop_last();
        lemma_prune(d, cutoff);
        let sub = prune(d, cutoff);
        let p = prune(s, cutoff);
        assert(p == if s.last().ts >= cutoff {
            sub.push(s.last())
        } else {
            sub
        });
        assert forall|i: int| 0 <= i < p.len() implies #[trigger] p[i].ts >= cutoff && s.contains(p[i]) by {
            if i < sub.len() {
                assert(p[i] == sub[i]);
                assert(d.contains(sub[i]));
                let j = choose|j: int| 0 <= j < d.len() && d[j] == sub[i];
                assert(s[j] == d[j]);
            } else {
                assert(p[i] == s[s.len() - 1]);
            }
        }
        assert forall|i: int| 0 <= i < s.len() && s[i].ts >= cutoff implies p.contains(#[trigger] s[i]) by {
            if i < s.len() - 1 {
                assert(s[i] == d[i]);
                assert(sub.contains(d[i]));
                let k = choose|k: int| 0 <= k < sub.len() && sub[k] == d[i];
                assert(p[k] == sub[k]);
            } else {
                assert(p[p.len() - 1] == s[i]);
            }
        }
        if sorted_by_ts(s) {
            assert(sorted_by_ts(d)) by {
                assert forall|i: int, j: int| 0 <= i <= j < d.len() implies d[i].ts <= d[j].ts by {
                    assert(d[i] == s[i]);
                    assert(d[j] == s[j]);
                }
            }
            assert forall|i: int, j: int| 0 <= i <= j < p.len() implies p[i].ts <= p[j].ts by {
                if j < sub.len() {
                    assert(p[i] == sub[i]);
                    assert(p[j] == sub[j]);
                } else if i < sub.len() {
                    assert(p[i] == sub[i]);
                    assert(d.contains(sub[i]));
                    let k = choose|k: int| 0 <= k < d.len() && d[k] == sub[i];
                    assert(s[k] == d[k]);
                    assert(p[j] == s[s.len() - 1]);
                }
            }
        }
    }
}

/// Retention window: inserting a sample drops every sample older than the
/// retention window before it and keeps every other one, and the new
/// sample is kept as the newest. When samples arrive in time order, the
/// history stays in time order and within the window.
pub proof fn lemma_insert_keeps_window(
    history: Seq<DataSample>,
    sample: DataSample,
    retention: u64,
)
    ensures
        ({
            let c = cutoff_ts(sample.ts, retention);
            let after = prune(history.push(sample), c);
            &&& after.len() > 0 && after.last() == sample
            &&& forall|i: int| 0 <= i < after.len() ==> c <= #[trigger] after[i].ts
            &&& forall|i: int|
                0 <= i < history.len() && history[i].ts >= c ==> after.contains(#[trigger] history[i])
            &&& sorted_by_ts(history) && (forall|i: int|
                0 <= i < history.len() ==> #[trigger] history[i].ts <= sample.ts) ==> sorted_by_ts(after)
                && forall|i: int| 0 <= i < after.len() ==> #[trigger] after[i].ts <= sample.ts
        }),
{
    let s = history.push(sample);
    let c = cutoff_ts(sample.ts, retention);
    lemma_prune(s, c);
    let after = prune(s, c);
    assert(s.last() == sample);
    assert forall|i: int| 0 <= i < history.len() && history[i].ts >= c implies after.contains(
        #[trigger] history[i],
    ) by {
        assert(s[i] == history[i]);
    }
    if sorted_by_ts(history) && (forall|i: int| 0 <= i < history.len() ==> #[trigger] history[i].ts <= sample.ts) {
        assert forall|i: int, j: int| 0 <= i <= j < s.len() implies s[i].ts <= s[j].ts by {
            if j == history.len() && i < j {
                assert(history[i].ts <= sample.ts);
            }
        }
        assert forall|i: int| 0 <= i < after.len() implies #[trigger] after[i].ts <= sample.ts by {
            assert(after[i].ts <= after[after.len() - 1].ts);
        }
    }
}

/// Restoring samples into an empty history leaves them in time order,
/// within the retention window before the newest of them, with the newest
/// one kept.
pub proof fn lemma_restore_keeps_window(samples: Seq<DataSample>, retention: u64)
    requires
        samples.len() > 0,
    ensures
        ({
            let sorted = sort_by_ts(samples);
            let newest = sorted.last().ts;
            let after = prune(Seq::<DataSample>::empty() + sorted, cutoff_ts(newest, retention));
            &&& sorted_by_ts(after)
            &&& after.len() > 0 && after.last().ts == newest
            &&& forall|i: int|
                0 <= i < after.len() ==> cutoff_ts(newest, retention) <= #[trigger] after[i].ts
                    <= newest
        }),
{
    lemma_sort_by_ts(samples);
    let sorted = sort_by_ts(samples);
    assert(Seq::<DataSample>::empty() + sorted =~= sorted);
    let newest = sorted.last().ts;
    let c = cutoff_ts(newest, retention);
    lemma_prune(sorted, c);
    let after = prune(sorted, c);
    assert forall|i: int| 0 <= i < after.len() implies #[trigger] after[i].ts <= newest by {
        assert(after[i].ts <= after[after.len() - 1].ts);
    }
}

} // verus!
