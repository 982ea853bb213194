use vstd::prelude::*;

verus! {

/// Microseconds in one second.
pub const MICROS_PER_SECOND: i64 = 1_000_000;

/// Reads the wall clock through `chrono::Utc::now` and hands back
/// `DateTime::timestamp_micros`: microseconds since the Unix epoch.
/// Nothing is claimed of the reading.
#[verifier::external_body]
pub(crate) fn utc_now_micros() -> i64 {
    chrono::Utc::now().timestamp_micros()
}

/// Whole seconds since the epoch that a reading in microseconds stands for,
/// rounded towards the past.
pub open spec fn seconds_of(micros: int) -> int {
    if micros >= 0 {
        micros / 1_000_000
    } else {
        -((-micros + 999_999) / 1_000_000)
    }
}

/// Converts a reading in microseconds to whole seconds, rounding towards the past.
pub fn whole_seconds(micros: i64) -> (seconds: i64)
    ensures
        seconds == seconds_of(micros as int),
        seconds * 1_000_000 <= micros < seconds * 1_000_000 + 1_000_000,
{
    if micros >= 0 {
        micros / MICROS_PER_SECOND
    } else {
        let back: i64 = -(micros + 1);
        let q: i64 = back / MICROS_PER_SECOND;
        -q - 1
    }
}

/// The current time in whole seconds since the Unix epoch: the whole
/// seconds of what the clock read in microseconds.
pub fn unix_now() -> (now: i64)
    ensures
        exists|micros: i64| now == #[trigger] seconds_of(micros as int),
{
    let micros = utc_now_micros();
    let now = whole_seconds(micros);
    assert(now == seconds_of(micros as int));
    now
}

} // verus!
