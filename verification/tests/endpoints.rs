use mymodbus::energy::{EnergyIntervalCache, EnergyTotalSample};
use mymodbus::frame::{RegisterRequest, RegisterValue};
use mymodbus::history::{DataSample, HistoryCache};
use mymodbus::http::{json_response, RequestError};
use mymodbus::latest::LatestCache;
use mymodbus::report::{
    cumulative_range, handle_cumulative, handle_energy_intervals, handle_history, handle_history_query_json, HistoryRows,
    IntervalFields, SampleFields,
};

fn sample(ts: u64, production: f64, consumption: f64, batt_soc: f64) -> DataSample {
    DataSample {
        ts,
        production_bits: production.to_bits(),
        consumption_bits: consumption.to_bits(),
        batt_soc_bits: batt_soc.to_bits(),
    }
}

fn fields(ts: u64, p: f64, c: f64, b: f64) -> SampleFields {
    SampleFields { ts, production: p.to_string(), consumption: c.to_string(), batt_soc: b.to_string() }
}

// Formats stored samples as they are, and each bucket by its average.
fn render(rows: HistoryRows) -> Vec<SampleFields> {
    match rows {
        HistoryRows::Samples(v) => v
            .iter()
            .map(|s| {
                fields(
                    s.ts,
                    f64::from_bits(s.production_bits),
                    f64::from_bits(s.consumption_bits),
                    f64::from_bits(s.batt_soc_bits),
                )
            })
            .collect(),
        HistoryRows::Buckets(groups) => groups
            .iter()
            .map(|g| {
                let n = g.samples.len() as f64;
                let sum = |f: fn(&DataSample) -> u64| {
                    g.samples.iter().map(|s| f64::from_bits(f(s))).sum::<f64>() / n
                };
                fields(g.start, sum(|s| s.production_bits), sum(|s| s.consumption_bits), sum(|s| s.batt_soc_bits))
            })
            .collect(),
    }
}

fn history_cache() -> HistoryCache {
    let mut cache = HistoryCache::new(48 * 3600);
    cache.insert(sample(0, 1.0, 2.0, 50.0));
    cache.insert(sample(60, 3.0, 2.0, 52.0));
    cache.insert(sample(120, 0.5, 1.5, 54.0));
    cache
}

#[test]
fn history_query_lists_or_averages() {
    let cache = history_cache();
    assert_eq!(
        handle_history_query_json(&cache, 0, 60, None, render).unwrap(),
        "{\"from_ts\":0,\"to_ts\":60,\"truncated\":false,\"samples\":[{\"ts\":0,\"production\":1,\"consumption\":2,\"batt_soc\":50},{\"ts\":60,\"production\":3,\"consumption\":2,\"batt_soc\":52}]}"
    );
    assert_eq!(
        handle_history_query_json(&cache, 0, 120, Some(2), render).unwrap(),
        "{\"from_ts\":0,\"to_ts\":120,\"truncated\":false,\"samples\":[{\"ts\":0,\"production\":2,\"consumption\":2,\"batt_soc\":51},{\"ts\":120,\"production\":0.5,\"consumption\":1.5,\"batt_soc\":54}]}"
    );
    assert_eq!(
        handle_history_query_json(&cache, 0, 120, Some(1), render),
        handle_history_query_json(&cache, 0, 120, None, render)
    );
    assert_eq!(
        handle_history_query_json(&cache, 10, 5, None, render),
        Err(RequestError::InvalidRange)
    );
}

#[test]
fn history_endpoint_needs_a_range() {
    let cache = history_cache();
    let body = handle_history_query_json(&cache, 60, 60, None, render).unwrap();
    assert_eq!(
        handle_history("/history?from_ts=60&to_ts=60", &cache, render).unwrap(),
        json_response("200 OK", body)
    );
    assert_eq!(
        handle_history("/history?to_ts=60", &cache, render),
        Err(RequestError::MissingHistoryRange)
    );
    assert_eq!(
        handle_history("/history?from_ts=61&to_ts=60", &cache, render),
        Err(RequestError::InvalidRange)
    );
}

fn totals(ts: u64, feed_in: f64, grid: f64) -> EnergyTotalSample {
    EnergyTotalSample { ts, feed_in_bits: feed_in.to_bits(), grid_consumption_bits: grid.to_bits() }
}

#[test]
fn energy_endpoint_reports_interval_energies() {
    let mut cache = EnergyIntervalCache::new();
    cache.insert(totals(900, 10.0, 5.0), true);
    cache.insert(totals(1800, 10.5, 5.25), true);
    let render = |pairs: Vec<(EnergyTotalSample, EnergyTotalSample)>| {
        pairs
            .iter()
            .map(|(p, c)| IntervalFields {
                from_ts: p.ts,
                to_ts: c.ts,
                feed_in_energy: (f64::from_bits(c.feed_in_bits) - f64::from_bits(p.feed_in_bits)).to_string(),
                grid_consumption_energy: (f64::from_bits(c.grid_consumption_bits)
                    - f64::from_bits(p.grid_consumption_bits))
                .to_string(),
            })
            .collect()
    };
    assert_eq!(
        handle_energy_intervals("/energy-intervals?from_ts=0&to_ts=2000", &cache, render).unwrap(),
        json_response(
            "200 OK",
            "{\"from_ts\":0,\"to_ts\":2000,\"intervals\":[{\"from_ts\":900,\"to_ts\":1800,\"feed_in_energy\":0.5,\"grid_consumption_energy\":0.25}]}".to_string()
        )
    );
    assert_eq!(
        handle_energy_intervals("/energy-intervals?to_ts=5", &cache, render),
        Err(RequestError::MissingFromTs)
    );
}

#[test]
fn id_endpoint_prefers_the_latest_value() {
    let mut latest = LatestCache::new();
    latest.insert("battery_soh", 98.5f64.to_bits(), 60);
    let format = |bits: u64| f64::from_bits(bits).to_string();
    let cached = mymodbus::http::handle_id("/id/battery_soh/", &latest, format, |_| {
        panic!("a cached value is not read again")
    })
    .unwrap();
    assert!(cached.ends_with("{\"data\": 98.5}"));
    let mut asked = None;
    let read = mymodbus::http::handle_id("/id/device_type_code", &latest, format, |request| {
        asked = Some(request);
        Ok(RegisterValue::U16(0x0D0F))
    })
    .unwrap();
    assert_eq!(asked, Some(RegisterRequest::UniqueId("device_type_code".to_string())));
    assert!(read.ends_with("{\"data\": 3343}"));
}

#[test]
fn cumulative_range_defaults_to_now() {
    assert_eq!(cumulative_range("/cumulative?from_ts=5&to_ts=9", Some(100)), Ok((5, 9)));
    assert_eq!(cumulative_range("/cumulative?from_ts=5", Some(100)), Ok((5, 100)));
    assert_eq!(
        cumulative_range("/cumulative?to_ts=5", Some(100)),
        Err(RequestError::MissingCumulativeFrom)
    );
    assert_eq!(
        cumulative_range("/cumulative?from_ts=5&to_ts=9", None),
        Err(RequestError::ClockBeforeEpoch)
    );
}

#[test]
fn cumulative_endpoint_wraps_the_document() {
    let doc = |f: u64, t: u64| Ok(format!("{{\"from\":{f},\"to\":{t}}}"));
    assert_eq!(
        handle_cumulative("/cumulative?from_ts=1&to_ts=2", doc),
        Ok(json_response("200 OK", "{\"from\":1,\"to\":2}".to_string()))
    );
    assert_eq!(handle_cumulative("/cumulative", doc), Err(RequestError::MissingCumulativeFrom));
    assert_eq!(
        handle_cumulative("/cumulative?from_ts=3&to_ts=2", |_, _| Err(RequestError::InvalidRange)),
        Err(RequestError::InvalidRange)
    );
    assert_eq!(
        RequestError::MissingCumulativeFrom.message(),
        "invalid request: /cumulative requires from_ts query parameters"
    );
}
