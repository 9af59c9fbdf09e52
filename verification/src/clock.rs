//! Wall-clock time, read through std.

use vstd::prelude::*;

verus! {

/// Milliseconds since the Unix epoch, as `std::time::SystemTime::now`
/// reports it (0 when the clock is before the epoch). Nothing is promised
/// of the value: it depends on the machine's clock.
#[verifier::external_body]
pub(crate) fn unix_time_ms() -> u64 {
    std::time::SystemTime::now().duration_since(std::time::UNIX_EPOCH).map(|d| d.as_millis() as u64).unwrap_or(0)
}

#[verifier::external_type_specification]
#[verifier::external_body]
pub struct ExInstant(std::time::Instant);

/// `Clone` of `std::time::Instant`, a `Copy` type: the clone is the same
/// instant.
pub assume_specification[ <std::time::Instant as Clone>::clone ](i: &std::time::Instant) -> (r: std::time::Instant)
    ensures
        r == *i,
;

/// `std::time::Instant::now`: a reading of the monotonic clock. Nothing is
/// promised of the value.
#[verifier::external_body]
pub(crate) fn instant_now() -> std::time::Instant {
    std::time::Instant::now()
}

/// `chrono::Utc::now().timestamp()`: whole seconds since the Unix epoch.
/// Nothing is promised of the value: it depends on the machine's clock.
#[verifier::external_body]
pub(crate) fn utc_timestamp_secs() -> i64 {
    chrono::Utc::now().timestamp()
}

/// `chrono::Utc::now().timestamp_millis()`: milliseconds since the Unix
/// epoch. Nothing is promised of the value: it depends on the machine's
/// clock.
#[verifier::external_body]
pub(crate) fn utc_timestamp_millis() -> i64 {
    chrono::Utc::now().timestamp_millis()
}

/// `std::time::Instant::elapsed`, in nanoseconds: the time since the
/// instant. Nothing is promised of the value.
#[verifier::external_body]
pub(crate) fn elapsed_nanos(start: &std::time::Instant) -> u128 {
    start.elapsed().as_nanos()
}

} // verus!
