use std::time::{Duration, Instant};
use vstd::prelude::*;

verus! {

/// A point in monotonic time (std's `Instant`), carried opaquely.
#[verifier::external_type_specification]
#[verifier::external_body]
pub struct ExInstant(Instant);

/// Relies on `Instant::now`: the current monotonic time.
#[verifier::external_body]
pub(crate) fn now() -> (r: Instant) {
    Instant::now()
}

/// Relies on `Instant::elapsed`: the time since `start`, whatever the clock says.
#[verifier::external_body]
pub(crate) fn elapsed_since(start: &Instant) -> (r: Duration) {
    start.elapsed()
}

/// The whole milliseconds in a duration (what `Duration::as_millis` returns).
pub uninterp spec fn millis_in(d: Duration) -> nat;

/// Relies on `Duration::as_millis`: the whole milliseconds in `d`.
#[verifier::external_body]
pub(crate) fn whole_millis(d: &Duration) -> (r: u128)
    ensures
        r == millis_in(*d),
{
    d.as_millis()
}

/// Relies on `Duration::from_millis`: a duration of exactly `ms` milliseconds.
#[verifier::external_body]
pub(crate) fn duration_of_millis(ms: u64) -> (r: Duration)
    ensures
        millis_in(r) == ms,
{
    Duration::from_millis(ms)
}

} // verus!
