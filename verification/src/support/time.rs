//! Moments and durations of the standard clock. What the clock reads depends
//! on when it is read, so nothing is stated of `Instant::now`, and of
//! `Instant::elapsed` only that it measures from the given moment; the span
//! between two given moments, and the parts of a duration, depend on those
//! values alone.
use vstd::prelude::*;

verus! {

/// Declares `std::time::Instant`.
#[verifier::external_type_specification]
#[verifier::external_body]
pub struct ExInstant(std::time::Instant);

/// The span from `earlier` to `later`, as `Instant::duration_since` gives it.
pub uninterp spec fn duration_between(later: std::time::Instant, earlier: std::time::Instant) -> std::time::Duration;

/// The length of a duration in whole nanoseconds, as `Duration::as_nanos`
/// gives it.
pub uninterp spec fn nanos_of(d: std::time::Duration) -> u128;

/// `Instant::now()`.
#[verifier::external_body]
pub(crate) fn instant_now() -> std::time::Instant {
    std::time::Instant::now()
}

/// `Instant::elapsed`: the time since `t`, which is the span from `t` to the
/// moment the clock is read inside the call, as `Instant::duration_since`
/// gives it. Which moment that is, nothing states.
#[verifier::external_body]
pub(crate) fn instant_elapsed(t: &std::time::Instant) -> (r: std::time::Duration)
    ensures
        exists|now: std::time::Instant| r == #[trigger] duration_between(now, *t),
{
    t.elapsed()
}

/// `Instant::duration_since`: the time from `earlier` to `later`, zero when
/// `earlier` is the later one.
#[verifier::external_body]
pub(crate) fn instant_duration_since(later: &std::time::Instant, earlier: &std::time::Instant) -> (r: std::time::Duration)
    ensures
        r == duration_between(*later, *earlier),
{
    later.duration_since(*earlier)
}

/// `Duration::as_secs`: the whole seconds of a duration, its length in
/// nanoseconds divided by a billion and rounded down.
#[verifier::external_body]
pub(crate) fn duration_secs(d: &std::time::Duration) -> (r: u64)
    ensures
        r == nanos_of(*d) / 1_000_000_000,
{
    d.as_secs()
}

/// `Duration::as_nanos`: the length of a duration in nanoseconds.
#[verifier::external_body]
pub(crate) fn duration_nanos(d: &std::time::Duration) -> (r: u128)
    ensures
        r == nanos_of(*d),
{
    d.as_nanos()
}

} // verus!
