use mymodbus::energy::{EnergyIntervalCache, EnergyTotalSample};
use mymodbus::history::{align_to_bucket, group_by_bucket, sort_samples, DataSample, HistoryCache};
use mymodbus::latest::{LatestCache, LatestValue};
use mymodbus::report::{
    energy_intervals_json, energy_request, history_request, history_response_json,
    select_history, HistoryRows, IntervalFields, SampleFields,
};
use mymodbus::http::RequestError;

fn s(ts: u64, p: u64) -> DataSample {
    DataSample { ts, production_bits: p, consumption_bits: 0, batt_soc_bits: 0 }
}

#[test]
fn history_prunes_by_retention() {
    let mut cache = HistoryCache::new(100);
    assert_eq!(cache.retention_secs(), 100);
    cache.insert(s(1000, 1));
    cache.insert(s(1050, 2));
    cache.insert(s(1101, 3));
    assert_eq!(cache.query(0, u64::MAX), vec![s(1050, 2), s(1101, 3)]);
    assert_eq!(cache.query(1050, 1050), vec![s(1050, 2)]);
    assert_eq!(cache.query(2000, 1000), vec![]);
}

#[test]
fn history_restores_sorted_samples() {
    let mut cache = HistoryCache::new(60);
    cache.insert_many(vec![]);
    assert_eq!(cache.query(0, u64::MAX), vec![]);
    cache.insert_many(vec![s(200, 1), s(100, 2), s(150, 3), s(150, 4)]);
    assert_eq!(cache.query(0, u64::MAX), vec![s(150, 3), s(150, 4), s(200, 1)]);
    assert_eq!(sort_samples(&[s(3, 0), s(1, 0), s(2, 0)]), vec![s(1, 0), s(2, 0), s(3, 0)]);
}

#[test]
fn buckets_are_aligned_to_their_start() {
    // 16:34:58 belongs to 16:30:00 and 16:39:58 to 16:35:00 with 5-minute buckets.
    let base = 1_700_000_000 - 1_700_000_000 % 86400;
    let t1 = base + 16 * 3600 + 34 * 60 + 58;
    let t2 = base + 16 * 3600 + 39 * 60 + 58;
    assert_eq!(align_to_bucket(t1, 300), base + 16 * 3600 + 30 * 60);
    assert_eq!(align_to_bucket(t2, 300), base + 16 * 3600 + 35 * 60);
    let groups = group_by_bucket(&[s(t2, 1), s(t1, 2), s(t1 + 1, 3)], 300);
    assert_eq!(groups.len(), 2);
    assert_eq!(groups[0].start, base + 16 * 3600 + 30 * 60);
    assert_eq!(groups[0].samples, vec![s(t1, 2), s(t1 + 1, 3)]);
    assert_eq!(groups[1].samples, vec![s(t2, 1)]);
    assert!(group_by_bucket(&[], 300).is_empty());
    assert!(group_by_bucket(&[s(1, 1)], 0).is_empty());
}

#[test]
fn history_selection_and_json() {
    let mut cache = HistoryCache::new(10_000);
    for i in 0..4 {
        cache.insert(s(60 * i, i));
    }
    assert_eq!(history_request("/history?from_ts=0&to_ts=200&interval=2"), Ok((0, 200, Some(2))));
    assert_eq!(history_request("/history?from_ts=0"), Err(RequestError::MissingHistoryRange));
    assert!(matches!(select_history(&cache, 5, 1, None), Err(RequestError::InvalidRange)));
    match select_history(&cache, 0, 120, Some(1)).unwrap() {
        HistoryRows::Samples(v) => assert_eq!(v, vec![s(0, 0), s(60, 1), s(120, 2)]),
        _ => panic!("expected samples"),
    }
    match select_history(&cache, 0, 180, Some(2)).unwrap() {
        HistoryRows::Buckets(g) => {
            assert_eq!(g.len(), 2);
            assert_eq!(g[1].start, 120);
            assert_eq!(g[1].samples.len(), 2);
        }
        _ => panic!("expected buckets"),
    }
    let rows = vec![
        SampleFields { ts: 1, production: "0.5".into(), consumption: "1".into(), batt_soc: "80".into() },
        SampleFields { ts: 2, production: "0".into(), consumption: "2".into(), batt_soc: "79".into() },
    ];
    assert_eq!(
        history_response_json(1, 2, false, &rows),
        "{\"from_ts\":1,\"to_ts\":2,\"truncated\":false,\"samples\":[{\"ts\":1,\"production\":0.5,\"consumption\":1,\"batt_soc\":80},{\"ts\":2,\"production\":0,\"consumption\":2,\"batt_soc\":79}]}"
    );
    assert_eq!(
        history_response_json(5, 6, true, &[]),
        "{\"from_ts\":5,\"to_ts\":6,\"truncated\":true,\"samples\":[]}"
    );
}

fn e(ts: u64) -> EnergyTotalSample {
    EnergyTotalSample { ts, feed_in_bits: ts, grid_consumption_bits: 0 }
}

#[test]
fn energy_cache_keeps_an_unbroken_run() {
    let mut cache = EnergyIntervalCache::new();
    assert_eq!(cache.latest(), None);
    cache.insert(e(900), true);
    cache.insert(e(1800), true);
    cache.insert(e(2700), true);
    assert_eq!(cache.latest(), Some(e(2700)));
    let pairs = cache.query_intervals(0, u64::MAX);
    assert_eq!(pairs, vec![(e(900), e(1800)), (e(1800), e(2700))]);
    assert_eq!(cache.query_intervals(1800, 2000), vec![(e(900), e(1800))]);
    assert_eq!(cache.query_intervals(2000, 1000), vec![]);
    cache.insert(e(3000), true);
    assert_eq!(cache.query_intervals(0, u64::MAX), vec![]);
    assert_eq!(cache.latest(), Some(e(3000)));
    cache.insert(e(3900), false);
    assert_eq!(cache.query_intervals(0, u64::MAX), vec![]);
    for i in 0..300u64 {
        cache.insert(e(3900 + 900 * (i + 1)), true);
    }
    assert_eq!(cache.query_intervals(0, u64::MAX).len(), 192);
    cache.clear();
    assert_eq!(cache.latest(), None);
}

#[test]
fn energy_request_and_json() {
    assert_eq!(energy_request("/energy-intervals?to_ts=5"), Err(RequestError::MissingFromTs));
    assert_eq!(energy_request("/energy-intervals?from_ts=5"), Err(RequestError::MissingToTs));
    assert_eq!(energy_request("/energy-intervals?from_ts=5&to_ts=4"), Err(RequestError::InvalidRange));
    assert_eq!(energy_request("/energy-intervals?from_ts=4&to_ts=5"), Ok((4, 5)));
    let rows = vec![IntervalFields {
        from_ts: 900,
        to_ts: 1800,
        feed_in_energy: "0.25".into(),
        grid_consumption_energy: "0".into(),
    }];
    assert_eq!(
        energy_intervals_json(0, 2000, &rows),
        "{\"from_ts\":0,\"to_ts\":2000,\"intervals\":[{\"from_ts\":900,\"to_ts\":1800,\"feed_in_energy\":0.25,\"grid_consumption_energy\":0}]}"
    );
}

#[test]
fn latest_cache_returns_what_was_stored() {
    let mut cache = LatestCache::new();
    assert_eq!(cache.get("battery_soh"), None);
    cache.insert("battery_soh", 1, 10);
    cache.insert("feed_in_energy_today", 2, 10);
    cache.insert("battery_soh", 3, 20);
    assert_eq!(cache.get("battery_soh"), Some(LatestValue { ts: 20, value_bits: 3 }));
    assert_eq!(cache.get("feed_in_energy_today"), Some(LatestValue { ts: 10, value_bits: 2 }));
    assert_eq!(cache.get("battery"), None);
}

#[test]
fn insert_prunes_every_sample_older_than_the_window() {
    let mut c = HistoryCache::new(10);
    c.insert(s(100, 0));
    c.insert(s(5, 0));
    c.insert(s(105, 0));
    let ts: Vec<u64> = c.query(0, u64::MAX).iter().map(|x| x.ts).collect();
    assert_eq!(ts, vec![100, 105]);
    let mut r = HistoryCache::new(10);
    r.insert(s(50, 0));
    r.insert_many(vec![s(200, 1), s(195, 2)]);
    assert_eq!(r.query(0, u64::MAX), vec![s(195, 2), s(200, 1)]);
}
