use vstd::prelude::*;
use std::time::Instant;

verus! {

#[verifier::external_type_specification]
#[verifier::external_body]
pub struct ExInstant(Instant);

#[verifier::external_type_specification]
#[verifier::external_body]
pub struct ExTimeDuration(time::Duration);

/// Relies on `std::time::Instant::now`: the current instant of the monotonic clock.
#[verifier::external_body]
pub(crate) fn now() -> Instant {
    Instant::now()
}

/// Relies on `std::time::Instant::elapsed`: the time that has passed since `since`.
#[verifier::external_body]
fn elapsed(since: &Instant) -> core::time::Duration {
    since.elapsed()
}

/// Relies on time's `Duration::from_std`: converts a std duration, and fails
/// on one that is longer than the largest duration of the time crate.
#[verifier::external_body]
fn from_std(d: core::time::Duration) -> Option<time::Duration> {
    time::Duration::from_std(d).ok()
}

/// Relies on time's `Duration::num_milliseconds`: the whole milliseconds of `d`.
#[verifier::external_body]
fn num_milliseconds(d: &time::Duration) -> i64 {
    d.num_milliseconds()
}

/// The whole milliseconds that have passed since `since`, or `None` when that
/// time is out of the range of the time crate's durations.
pub fn elapsed_millis(since: &Instant) -> Option<i64> {
    match from_std(elapsed(since)) {
        Some(d) => Some(num_milliseconds(&d)),
        None => None,
    }
}

} // verus!
