//! Timing of the poller: samples are taken at the start of every minute.

use vstd::prelude::*;

verus! {

/// Register ids whose values are cached as latest-only values.
pub const LATEST_ONLY_REGISTER_IDS: [&'static str; 3] = [
    "battery_soh",
    "feed_in_energy_today",
    "grid_consumption_energy_today",
];

/// `SystemTime::now()` as whole seconds since the Unix epoch; `None` when
/// the clock is before the epoch. Nothing is stated of the value: it is
/// the machine's clock.
#[verifier::external_body]
pub(crate) fn unix_now() -> (now: Option<u64>)
{
    match std::time::SystemTime::now().duration_since(std::time::UNIX_EPOCH) {
        Ok(d) => Some(d.as_secs()),
        Err(_) => None,
    }
}

/// The start of the minute after `now_ts`.
pub open spec fn next_minute(now_ts: u64) -> int {
    (now_ts / 60 + 1) * 60
}

/// The Unix timestamp of the start of the minute after `now_ts`.
pub fn next_minute_after(now_ts: u64) -> (ts: u64)
    requires
        next_minute(now_ts) <= u64::MAX,
    ensures
        ts == next_minute(now_ts),
        ts > now_ts,
        ts % 60 == 0,
        ts - now_ts <= 60,
{
    (now_ts / 60 + 1) * 60
}

/// The start of the minute after the clock reading `now` (`None` when the
/// clock is before the epoch); `None` also when that minute does not fit
/// in 64 bits.
pub fn next_minute_from(now: Option<u64>) -> (ts: Option<u64>)
    ensures
        match now {
            Some(n) => if next_minute(n) <= u64::MAX {
                ts == Some(next_minute(n) as u64)
            } else {
                ts is None
            },
            None => ts is None,
        },
{
    match now {
        Some(n) => if n / 60 < u64::MAX / 60 {
            Some(next_minute_after(n))
        } else {
            None
        },
        None => None,
    }
}

/// The Unix timestamp of the start of the next minute by the clock; `None`
/// when the clock is before the epoch or so far ahead that the next minute
/// does not fit in 64 bits. What the clock reads is not stated.
pub fn next_minute_ts() -> (ts: Option<u64>)
    ensures
        ts matches Some(t) ==> t % 60 == 0,
{
    next_minute_from(unix_now())
}

/// Seconds from `now_ts` until `ts`, zero when `ts` has passed.
pub fn seconds_until(ts: u64, now_ts: u64) -> (secs: u64)
    ensures
        secs == (if ts >= now_ts {
            ts - now_ts
        } else {
            0
        }),
{
    ts.saturating_sub(now_ts)
}

/// Seconds from now until `ts` by the clock, zero when `ts` has passed;
/// `None` when the clock is before the epoch.
pub fn duration_until_unix_ts(ts: u64) -> (secs: Option<u64>)
    ensures
        secs matches Some(s) ==> s <= ts,
{
    match unix_now() {
        Some(now) => Some(seconds_until(ts, now)),
        None => None,
    }
}

} // verus!
