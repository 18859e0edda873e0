//! The `/history` and `/energy-intervals` endpoints: reading their query,
//! selecting what they report, and laying out their JSON. Readings enter
//! the JSON as already formatted number texts.

use vstd::prelude::*;
use crate::energy::{interval_pairs, EnergyIntervalCache, EnergyTotalSample};
use crate::history::{bucket_start, flatten_groups, lemma_sort_by_ts, group_by_bucket, groups_by_bucket, in_range, sort_by_ts, BucketGroup, DataSample, HistoryCache};
use crate::http::{json_response, json_response_text, params_of, query_params, RequestError};
use crate::number::{decimal, decimal_chars};
use crate::text::{push_chars, push_str};

verus! {

/// Texts joined with commas.
pub open spec fn joined(items: Seq<Seq<char>>) -> Seq<char>
    decreases items.len(),
{
    if items.len() == 0 {
        Seq::empty()
    } else if items.len() == 1 {
        items[0]
    } else {
        joined(items.drop_last()) + seq![','] + items.last()
    }
}

pub open spec fn bool_text(b: bool) -> Seq<char> {
    if b {
        "true"@
    } else {
        "false"@
    }
}

// ---------------------------------------------------------------------------
// /history
// ---------------------------------------------------------------------------

/// One history row with its readings already formatted as JSON numbers.
pub struct SampleFields {
    pub ts: u64,
    pub production: String,
    pub consumption: String,
    pub batt_soc: String,
}

pub open spec fn sample_text(s: SampleFields) -> Seq<char> {
    "{\"ts\":"@ + decimal(s.ts as nat) + ",\"production\":"@ + s.production@ + ",\"consumption\":"@
        + s.consumption@ + ",\"batt_soc\":"@ + s.batt_soc@ + "}"@
}

/// The JSON document of a history reply.
pub open spec fn history_json(
    from_ts: u64,
    to_ts: u64,
    truncated: bool,
    samples: Seq<SampleFields>,
) -> Seq<char> {
    "{\"from_ts\":"@ + decimal(from_ts as nat) + ",\"to_ts\":"@ + decimal(to_ts as nat)
        + ",\"truncated\":"@ + bool_text(truncated) + ",\"samples\":["@ + joined(
        samples.map_values(|s: SampleFields| sample_text(s)),
    ) + "]}"@
}

fn push_sample(out: &mut String, s: &SampleFields)
    ensures
        final(out)@ == old(out)@ + sample_text(*s),
{
    push_str(out, "{\"ts\":");
    push_chars(out, decimal_chars(s.ts).as_slice());
    push_str(out, ",\"production\":");
    push_str(out, s.production.as_str());
    push_str(out, ",\"consumption\":");
    push_str(out, s.consumption.as_str());
    push_str(out, ",\"batt_soc\":");
    push_str(out, s.batt_soc.as_str());
    push_str(out, "}");
}

/// Lays out the JSON document of a history reply.
pub fn history_response_json(
    from_ts: u64,
    to_ts: u64,
    truncated: bool,
    samples: &[SampleFields],
) -> (r: String)
    ensures
        r@ == history_json(from_ts, to_ts, truncated, samples@),
{
    let ghost texts = samples@.map_values(|s: SampleFields| sample_text(s));
    let mut out = String::new();
    push_str(&mut out, "{\"from_ts\":");
    push_chars(&mut out, decimal_chars(from_ts).as_slice());
    push_str(&mut out, ",\"to_ts\":");
    push_chars(&mut out, decimal_chars(to_ts).as_slice());
    push_str(&mut out, ",\"truncated\":");
    if truncated {
        push_str(&mut out, "true");
    } else {
        push_str(&mut out, "false");
    }
    push_str(&mut out, ",\"samples\":[");
    let ghost head = out@;
    let mut idx: usize = 0;
    while idx < samples.len()
        invariant
            idx <= samples@.len(),
            texts == samples@.map_values(|s: SampleFields| sample_text(s)),
            out@ == head + joined(texts.take(idx as int)),
        decreases samples@.len() - idx,
    {
        assert(texts.take(idx + 1).drop_last() =~= texts.take(idx as int));
        if idx > 0 {
            proof {
                reveal_strlit(",");
            }
            push_str(&mut out, ",");
        } else {
            assert(joined(texts.take(idx as int)) =~= Seq::<char>::empty());
        }
        push_sample(&mut out, &samples[idx]);
        assert(texts[idx as int] == texts.take(idx + 1).last());
        assert(out@ =~= head + joined(texts.take(idx + 1)));
        idx = idx + 1;
    }
    assert(texts.take(samples@.len() as int) =~= texts);
    push_str(&mut out, "]}");
    out
}

/// What a history reply lists: the stored samples, or their time buckets.
pub enum HistoryRows {
    /// The samples in the range, in stored order.
    Samples(Vec<DataSample>),
    /// The samples in the range grouped into buckets, to be averaged.
    Buckets(Vec<BucketGroup>),
}

/// The time range and averaging interval of a `/history` path; both ends
/// of the range are required.
pub fn history_request(path: &str) -> (r: Result<(u64, u64, Option<u64>), RequestError>)
    ensures
        ({
            let p = params_of(path@);
            match (p.from_ts, p.to_ts) {
                (Some(f), Some(t)) => r == Ok::<(u64, u64, Option<u64>), RequestError>(
                    (f, t, p.interval),
                ),
                _ => r == Err::<(u64, u64, Option<u64>), RequestError>(
                    RequestError::MissingHistoryRange,
                ),
            }
        }),
{
    let p = query_params(path);
    match (p.from_ts, p.to_ts) {
        (Some(f), Some(t)) => Ok((f, t, p.interval)),
        _ => Err(RequestError::MissingHistoryRange),
    }
}

/// Whether `rows` is what a history reply over the stored samples `s`
/// reports for `[from_ts, to_ts]`: the samples in the range in stored
/// order, or, for an interval of more than one minute, those samples sorted
/// and grouped into buckets of `interval` minutes.
pub open spec fn history_rows_of(
    s: Seq<DataSample>,
    from_ts: u64,
    to_ts: u64,
    interval: Option<u64>,
    rows: HistoryRows,
) -> bool {
    let q = s.filter(in_range(from_ts, to_ts));
    match interval {
        Some(i) if i > 1 => rows matches HistoryRows::Buckets(g) && (q.len() == 0 ==> g@.len() == 0)
            && (q.len() > 0 ==> groups_by_bucket(g@, sort_by_ts(q), (i * 60) as u64)),
        _ => rows matches HistoryRows::Samples(v) && v@ == q,
    }
}

/// The samples a history reply lists: the samples as they are, or the
/// samples of all buckets in bucket order.
pub open spec fn listed_samples(rows: HistoryRows) -> Seq<DataSample> {
    match rows {
        HistoryRows::Samples(v) => v@,
        HistoryRows::Buckets(g) => flatten_groups(g@),
    }
}

proof fn lemma_flatten_contains(groups: Seq<BucketGroup>, g: int, k: int)
    requires
        0 <= g < groups.len(),
        0 <= k < groups[g].samples@.len(),
    ensures
        flatten_groups(groups).contains(groups[g].samples@[k]),
    decreases groups.len(),
{
    let f = flatten_groups(groups);
    let last = groups.last().samples@;
    let before = flatten_groups(groups.drop_last());
    assert(f == before + last);
    if g == groups.len() - 1 {
        assert(f[before.len() + k] == last[k]);
    } else {
        assert(groups.drop_last()[g] == groups[g]);
        lemma_flatten_contains(groups.drop_last(), g, k);
        let j = choose|j: int| 0 <= j < before.len() && before[j] == groups[g].samples@[k];
        assert(f[j] == before[j]);
    }
}

/// A history reply lists exactly the stored samples whose timestamps lie
/// in `[from_ts, to_ts]`, each once: as they are when no interval over one
/// minute is asked for, else in buckets of `interval` minutes, where every
/// sample of every bucket lies in the range and in the bucket's time span.
pub proof fn lemma_history_rows_in_range(
    s: Seq<DataSample>,
    from_ts: u64,
    to_ts: u64,
    interval: Option<u64>,
    rows: HistoryRows,
)
    requires
        history_rows_of(s, from_ts, to_ts, interval, rows),
        interval matches Some(i) ==> i * 60 <= u64::MAX,
    ensures
        (rows is Buckets) == (interval matches Some(i) && i > 1),
        forall|k: int|
            0 <= k < listed_samples(rows).len() ==> from_ts <= #[trigger] listed_samples(rows)[k].ts
                <= to_ts,
        listed_samples(rows).to_multiset() == s.filter(in_range(from_ts, to_ts)).to_multiset(),
        forall|x: DataSample|
            s.contains(x) && from_ts <= x.ts <= to_ts ==> #[trigger] listed_samples(rows).contains(x),
        rows matches HistoryRows::Buckets(g) ==> forall|b: int, k: int|
            0 <= b < g@.len() && 0 <= k < g@[b].samples@.len() ==> {
                let t = #[trigger] g@[b].samples@[k].ts;
                &&& from_ts <= t <= to_ts
                &&& g@[b].start <= t
                &&& t < g@[b].start + interval->0 * 60
            },
        rows matches HistoryRows::Buckets(g) ==> forall|b: int|
            0 <= b < g@.len() ==> (#[trigger] g@[b].start as int) % (interval->0 * 60) == 0 && (b > 0
                ==> g@[b].start != g@[b - 1].start),
{
    broadcast use vstd::seq_lib::group_to_multiset_ensures, vstd::seq_lib::group_filter_ensures;

    let q = s.filter(in_range(from_ts, to_ts));
    let l = listed_samples(rows);
    if rows is Buckets {
        lemma_sort_by_ts(q);
        if q.len() == 0 {
            assert(l =~= Seq::<DataSample>::empty());
            assert(q =~= Seq::<DataSample>::empty());
        }
        assert(l.to_multiset() == q.to_multiset());
    }
    assert(l.to_multiset() == q.to_multiset());
    assert forall|k: int| 0 <= k < l.len() implies from_ts <= #[trigger] l[k].ts <= to_ts by {
        assert(l.to_multiset().count(l[k]) > 0);
        assert(q.contains(l[k]));
        let j = choose|j: int| 0 <= j < q.len() && q[j] == l[k];
        assert(in_range(from_ts, to_ts)(q[j]));
    }
    assert forall|x: DataSample| s.contains(x) && from_ts <= x.ts <= to_ts implies #[trigger] l.contains(
        x,
    ) by {
        let j = choose|j: int| 0 <= j < s.len() && s[j] == x;
        assert(in_range(from_ts, to_ts)(s[j]));
        assert(q.contains(s[j]));
        assert(q.to_multiset().count(x) > 0);
    }
    if let HistoryRows::Buckets(g) = rows {
        let i = interval->0;
        assert forall|b: int, k: int| 0 <= b < g@.len() && 0 <= k < g@[b].samples@.len() implies {
            let t = #[trigger] g@[b].samples@[k].ts;
            &&& from_ts <= t <= to_ts
            &&& g@[b].start <= t
            &&& t < g@[b].start + i * 60
        } by {
            let x = g@[b].samples@[k];
            lemma_flatten_contains(g@, b, k);
            let j = choose|j: int| 0 <= j < l.len() && l[j] == x;
            assert(from_ts <= l[j].ts <= to_ts);
            let w = (i * 60) as u64;
            assert(w == i * 60 && w > 0);
            assert(bucket_start(x.ts, w) == g@[b].start);
            let t = x.ts;
            assert(0 <= t % w < w && t % w <= t) by (nonlinear_arith)
                requires
                    w > 0,
            ;
            assert(g@[b].start == t - t % w);
            assert(from_ts <= t <= to_ts);
        }
        assert forall|b: int| 0 <= b < g@.len() implies (#[trigger] g@[b].start as int) % (i * 60) == 0 && (b
            > 0 ==> g@[b].start != g@[b - 1].start) by {
            let w = (i * 60) as u64;
            assert(g@[b].samples@.len() > 0);
            let t = g@[b].samples@[0].ts;
            assert(w == i * 60 && w > 0);
            assert(bucket_start(t, w) == g@[b].start);
            assert(0 <= t % w < w && t % w <= t) by (nonlinear_arith)
                requires
                    w > 0,
            ;
            assert(g@[b].start == t - t % w);
            assert((t - t % w) % (w as int) == 0) by (nonlinear_arith)
                requires
                    w > 0,
            ;
        }
    }
}

/// Selects what a history reply reports: the stored samples in
/// `[from_ts, to_ts]`, grouped into buckets of `interval` minutes when the
/// interval is more than one minute.
pub fn select_history(cache: &HistoryCache, from_ts: u64, to_ts: u64, interval: Option<u64>) -> (r:
    Result<HistoryRows, RequestError>)
    requires
        from_ts <= to_ts ==> (interval matches Some(i) ==> i * 60 <= u64::MAX),
    ensures
        from_ts > to_ts ==> r == Err::<HistoryRows, RequestError>(RequestError::InvalidRange),
        from_ts <= to_ts ==> (r matches Ok(rows) && history_rows_of(cache@, from_ts, to_ts, interval, rows)),
{
    if from_ts > to_ts {
        return Err(RequestError::InvalidRange);
    }
    let samples = cache.query(from_ts, to_ts);
    match interval {
        Some(i) if i > 1 => Ok(HistoryRows::Buckets(group_by_bucket(samples.as_slice(), i * 60))),
        _ => Ok(HistoryRows::Samples(samples)),
    }
}

/// Whether `json` is a history document that `render` can make of the
/// rows selected from `s`: `render` formats the readings of the rows.
pub open spec fn rendered_history<F: FnOnce(HistoryRows) -> Vec<SampleFields>>(
    s: Seq<DataSample>,
    from_ts: u64,
    to_ts: u64,
    interval: Option<u64>,
    render: F,
    json: Seq<char>,
) -> bool {
    exists|rows: HistoryRows, fields: Vec<SampleFields>|
        {
            &&& history_rows_of(s, from_ts, to_ts, interval, rows)
            &&& render.ensures((rows,), fields)
            &&& json == history_json(from_ts, to_ts, false, fields@)
        }
}

/// The JSON document of a history query. `render` formats the readings of
/// the selected rows (averaging each bucket); the readings are doubles,
/// which this library does not compute with.
pub fn handle_history_query_json<F>(
    cache: &HistoryCache,
    from_ts: u64,
    to_ts: u64,
    interval: Option<u64>,
    render: F,
) -> (r: Result<String, RequestError>) where F: FnOnce(HistoryRows) -> Vec<SampleFields>
    requires
        from_ts <= to_ts ==> (interval matches Some(i) ==> i * 60 <= u64::MAX),
        forall|rows: HistoryRows| render.requires((rows,)),
    ensures
        from_ts > to_ts ==> r == Err::<String, RequestError>(RequestError::InvalidRange),
        from_ts <= to_ts ==> (r matches Ok(json) && rendered_history(
            cache@,
            from_ts,
            to_ts,
            interval,
            render,
            json@,
        )),
{
    let rows = match select_history(cache, from_ts, to_ts, interval) {
        Ok(rows) => rows,
        Err(e) => return Err(e),
    };
    let ghost selected = rows;
    let fields = render(rows);
    let json = history_response_json(from_ts, to_ts, false, fields.as_slice());
    assert(history_rows_of(cache@, from_ts, to_ts, interval, selected));
    Ok(json)
}

/// Whether an interval in a `/history` path is small enough that its
/// length in seconds fits in 64 bits where the range is valid.
pub open spec fn history_interval_fits(path: Seq<char>) -> bool {
    let p = params_of(path);
    p.from_ts matches Some(f) && p.to_ts matches Some(t) && f <= t ==> (p.interval matches Some(i)
        ==> i * 60 <= u64::MAX)
}

/// Handles `/history?from_ts=..&to_ts=..[&interval=..]`: both ends of the
/// range are required, in order; `render` formats the selected rows.
pub fn handle_history<F>(path: &str, cache: &HistoryCache, render: F) -> (r: Result<
    String,
    RequestError,
>) where F: FnOnce(HistoryRows) -> Vec<SampleFields>
    requires
        history_interval_fits(path@),
        forall|rows: HistoryRows| render.requires((rows,)),
    ensures
        ({
            let p = params_of(path@);
            match (p.from_ts, p.to_ts) {
                (Some(f), Some(t)) => if f > t {
                    r == Err::<String, RequestError>(RequestError::InvalidRange)
                } else {
                    r matches Ok(text) && exists|json: Seq<char>|
                        rendered_history(cache@, f, t, p.interval, render, json) && text@
                            == json_response_text("200 OK"@, json)
                },
                _ => r == Err::<String, RequestError>(RequestError::MissingHistoryRange),
            }
        }),
{
    let (from_ts, to_ts, interval) = match history_request(path) {
        Ok(request) => request,
        Err(e) => return Err(e),
    };
    match handle_history_query_json(cache, from_ts, to_ts, interval, render) {
        Ok(json) => {
            let ghost body = json@;
            let text = json_response("200 OK", json);
            assert(rendered_history(cache@, from_ts, to_ts, interval, render, body));
            Ok(text)
        },
        Err(e) => Err(e),
    }
}

// ---------------------------------------------------------------------------
// /cumulative
// ---------------------------------------------------------------------------

/// The range of a `/cumulative` path given the clock reading `now` (`None`
/// when the clock is before the Unix epoch): the range ends at `to_ts`, or
/// now when it is absent; `from_ts` is required. The clock is read first.
pub open spec fn cumulative_range_of(path: Seq<char>, now: Option<u64>) -> Result<(u64, u64), RequestError> {
    let p = params_of(path);
    match now {
        None => Err(RequestError::ClockBeforeEpoch),
        Some(n) => match p.from_ts {
            None => Err(RequestError::MissingCumulativeFrom),
            Some(f) => Ok(
                (
                    f,
                    match p.to_ts {
                        Some(t) => t,
                        None => n,
                    },
                ),
            ),
        },
    }
}

/// Reads the range of a `/cumulative` path, given the clock reading.
pub fn cumulative_range(path: &str, now: Option<u64>) -> (r: Result<(u64, u64), RequestError>)
    ensures
        r == cumulative_range_of(path@, now),
{
    let now = match now {
        Some(n) => n,
        None => return Err(RequestError::ClockBeforeEpoch),
    };
    let p = query_params(path);
    let to_ts = match p.to_ts {
        Some(t) => t,
        None => now,
    };
    match p.from_ts {
        Some(f) => Ok((f, to_ts)),
        None => Err(RequestError::MissingCumulativeFrom),
    }
}

/// Handles `/cumulative?from_ts=..[&to_ts=..]`: reads the clock, takes the
/// range (ending now when `to_ts` is absent) and answers with the JSON
/// document that `cumulative` makes for it.
pub fn handle_cumulative<F>(path: &str, cumulative: F) -> (r: Result<String, RequestError>) where
    F: FnOnce(u64, u64) -> Result<String, RequestError>,

    requires
        forall|from_ts: u64, to_ts: u64| cumulative.requires((from_ts, to_ts)),
    ensures
        exists|now: Option<u64>|
            match #[trigger] cumulative_range_of(path@, now) {
                Err(e) => r == Err::<String, RequestError>(e),
                Ok((f, t)) => exists|res: Result<String, RequestError>|
                    {
                        &&& cumulative.ensures((f, t), res)
                        &&& match res {
                            Ok(json) => r matches Ok(text) && text@ == json_response_text(
                                "200 OK"@,
                                json@,
                            ),
                            Err(e) => r == Err::<String, RequestError>(e),
                        }
                    },
            },
{
    let now = crate::poller::unix_now();
    let (from_ts, to_ts) = match cumulative_range(path, now) {
        Ok(range) => range,
        Err(e) => {
            assert(cumulative_range_of(path@, now) == Err::<(u64, u64), RequestError>(e));
            return Err(e);
        },
    };
    let res = cumulative(from_ts, to_ts);
    let ghost answered = res;
    let r = match res {
        Ok(json) => Ok(json_response("200 OK", json)),
        Err(e) => Err(e),
    };
    assert(cumulative_range_of(path@, now) == Ok::<(u64, u64), RequestError>((from_ts, to_ts)));
    assert(cumulative.ensures((from_ts, to_ts), answered));
    r
}

// ---------------------------------------------------------------------------
// /energy-intervals
// ---------------------------------------------------------------------------

/// The time range of an `/energy-intervals` path: both ends required, in order.
pub fn energy_request(path: &str) -> (r: Result<(u64, u64), RequestError>)
    ensures
        ({
            let p = params_of(path@);
            match (p.from_ts, p.to_ts) {
                (None, _) => r == Err::<(u64, u64), RequestError>(RequestError::MissingFromTs),
                (Some(_), None) => r == Err::<(u64, u64), RequestError>(RequestError::MissingToTs),
                (Some(f), Some(t)) => if f > t {
                    r == Err::<(u64, u64), RequestError>(RequestError::InvalidRange)
                } else {
                    r == Ok::<(u64, u64), RequestError>((f, t))
                },
            }
        }),
{
    let p = query_params(path);
    let from_ts = match p.from_ts {
        Some(f) => f,
        None => return Err(RequestError::MissingFromTs),
    };
    let to_ts = match p.to_ts {
        Some(t) => t,
        None => return Err(RequestError::MissingToTs),
    };
    if from_ts > to_ts {
        return Err(RequestError::InvalidRange);
    }
    Ok((from_ts, to_ts))
}

/// One energy interval with its energies already formatted as JSON numbers.
pub struct IntervalFields {
    pub from_ts: u64,
    pub to_ts: u64,
    pub feed_in_energy: String,
    pub grid_consumption_energy: String,
}

pub open spec fn interval_text(i: IntervalFields) -> Seq<char> {
    "{\"from_ts\":"@ + decimal(i.from_ts as nat) + ",\"to_ts\":"@ + decimal(i.to_ts as nat)
        + ",\"feed_in_energy\":"@ + i.feed_in_energy@ + ",\"grid_consumption_energy\":"@
        + i.grid_consumption_energy@ + "}"@
}

/// The JSON document of an energy-intervals reply.
pub open spec fn energy_json(from_ts: u64, to_ts: u64, intervals: Seq<IntervalFields>) -> Seq<char> {
    "{\"from_ts\":"@ + decimal(from_ts as nat) + ",\"to_ts\":"@ + decimal(to_ts as nat)
        + ",\"intervals\":["@ + joined(intervals.map_values(|i: IntervalFields| interval_text(i)))
        + "]}"@
}

fn push_interval(out: &mut String, i: &IntervalFields)
    ensures
        final(out)@ == old(out)@ + interval_text(*i),
{
    push_str(out, "{\"from_ts\":");
    push_chars(out, decimal_chars(i.from_ts).as_slice());
    push_str(out, ",\"to_ts\":");
    push_chars(out, decimal_chars(i.to_ts).as_slice());
    push_str(out, ",\"feed_in_energy\":");
    push_str(out, i.feed_in_energy.as_str());
    push_str(out, ",\"grid_consumption_energy\":");
    push_str(out, i.grid_consumption_energy.as_str());
    push_str(out, "}");
}

/// Lays out the JSON document of an energy-intervals reply.
pub fn energy_intervals_json(from_ts: u64, to_ts: u64, intervals: &[IntervalFields]) -> (r: String)
    ensures
        r@ == energy_json(from_ts, to_ts, intervals@),
{
    let ghost texts = intervals@.map_values(|i: IntervalFields| interval_text(i));
    let mut out = String::new();
    push_str(&mut out, "{\"from_ts\":");
    push_chars(&mut out, decimal_chars(from_ts).as_slice());
    push_str(&mut out, ",\"to_ts\":");
    push_chars(&mut out, decimal_chars(to_ts).as_slice());
    push_str(&mut out, ",\"intervals\":[");
    let ghost head = out@;
    let mut idx: usize = 0;
    while idx < intervals.len()
        invariant
            idx <= intervals@.len(),
            texts == intervals@.map_values(|i: IntervalFields| interval_text(i)),
            out@ == head + joined(texts.take(idx as int)),
        decreases intervals@.len() - idx,
    {
        assert(texts.take(idx + 1).drop_last() =~= texts.take(idx as int));
        if idx > 0 {
            proof {
                reveal_strlit(",");
            }
            push_str(&mut out, ",");
        } else {
            assert(joined(texts.take(idx as int)) =~= Seq::<char>::empty());
        }
        push_interval(&mut out, &intervals[idx]);
        assert(texts[idx as int] == texts.take(idx + 1).last());
        assert(out@ =~= head + joined(texts.take(idx + 1)));
        idx = idx + 1;
    }
    assert(texts.take(intervals@.len() as int) =~= texts);
    push_str(&mut out, "]}");
    out
}

/// Handles `/energy-intervals?from_ts=..&to_ts=..`: both ends of the range
/// are required, in order. `render` gets the `(previous, current)` sample
/// pairs of the 15-minute intervals in the range and formats the energies
/// of those it keeps; the counters are doubles, which this library does
/// not compute with.
pub fn handle_energy_intervals<F>(path: &str, cache: &EnergyIntervalCache, render: F) -> (r: Result<
    String,
    RequestError,
>) where F: FnOnce(Vec<(EnergyTotalSample, EnergyTotalSample)>) -> Vec<IntervalFields>
    requires
        forall|pairs: Vec<(EnergyTotalSample, EnergyTotalSample)>| render.requires((pairs,)),
    ensures
        ({
            let p = params_of(path@);
            match (p.from_ts, p.to_ts) {
                (None, _) => r == Err::<String, RequestError>(RequestError::MissingFromTs),
                (Some(_), None) => r == Err::<String, RequestError>(RequestError::MissingToTs),
                (Some(f), Some(t)) => if f > t {
                    r == Err::<String, RequestError>(RequestError::InvalidRange)
                } else {
                    r matches Ok(text) && exists|
                        pairs: Vec<(EnergyTotalSample, EnergyTotalSample)>,
                        fields: Vec<IntervalFields>,
                    |
                        {
                            &&& pairs@ == interval_pairs(cache@, f, t)
                            &&& render.ensures((pairs,), fields)
                            &&& text@ == json_response_text("200 OK"@, energy_json(f, t, fields@))
                        }
                },
            }
        }),
{
    let (from_ts, to_ts) = match energy_request(path) {
        Ok(range) => range,
        Err(e) => return Err(e),
    };
    let pairs = cache.query_intervals(from_ts, to_ts);
    let ghost asked = pairs;
    let fields = render(pairs);
    let text = json_response("200 OK", energy_intervals_json(from_ts, to_ts, fields.as_slice()));
    assert(asked@ == interval_pairs(cache@, from_ts, to_ts));
    Ok(text)
}

} // verus!
