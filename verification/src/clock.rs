//! Unix timestamps (whole seconds) of stored records.

use vstd::prelude::*;

verus! {

#[verifier::external_type_specification]
#[verifier::external_body]
pub struct ExSystemTime(std::time::SystemTime);

/// `std::time::SystemTime::now`. Nothing is stated of the clock's reading.
#[verifier::external_body]
fn system_time_now() -> std::time::SystemTime {
    std::time::SystemTime::now()
}

/// `SystemTime::duration_since(UNIX_EPOCH)`, with `None` in place of the
/// error that it returns where `time` lies before the epoch. `SystemTime` is
/// opaque here, so nothing is stated of which case comes or of the duration.
#[verifier::external_body]
fn since_unix_epoch(time: &std::time::SystemTime) -> Option<std::time::Duration> {
    time.duration_since(std::time::UNIX_EPOCH).ok()
}

/// `Duration::as_secs`: the whole seconds of `elapsed`. `Duration` is opaque
/// here, so nothing is stated of the number.
#[verifier::external_body]
fn whole_seconds(elapsed: &std::time::Duration) -> u64 {
    elapsed.as_secs()
}

/// The stored timestamp for a clock reading: the whole seconds since the
/// epoch cast to `i64` (wrapping above `i64::MAX`, as `as` does), or 0 where
/// the clock reads before the epoch.
pub fn unix_seconds_or_zero(elapsed: Option<u64>) -> (ts: i64)
    ensures
        ts == match elapsed {
            Some(secs) => secs as i64,
            None => 0,
        },
{
    match elapsed {
        Some(secs) => secs as i64,
        None => 0,
    }
}

/// The current Unix time in whole seconds, 0 if the clock is before the epoch.
pub fn now_unix() -> i64 {
    let now = system_time_now();
    let secs = match since_unix_epoch(&now) {
        Some(elapsed) => Some(whole_seconds(&elapsed)),
        None => None,
    };
    unix_seconds_or_zero(secs)
}

/// The current Unix time as the command line reads it (same rule as `now_unix`).
pub fn now() -> i64 {
    now_unix()
}

} // verus!
