//! Reading the monotonic clock.
//!
//! A session keeps every point in time as a whole number of nanoseconds
//! since the session was made. Only the functions of this file touch
//! `std::time`; all arithmetic on the readings is done by verified code.

use std::time::Duration;
use std::time::Instant;
use vstd::prelude::*;

verus! {

/// `std::time::Instant`, a point on the monotonic clock. Nothing is known of
/// what it holds.
#[verifier::external_type_specification]
#[verifier::external_body]
pub struct ExInstant(Instant);

/// `Instant::now` returns some point on the monotonic clock; nothing is
/// claimed of it.
pub assume_specification[ Instant::now ]() -> (t: Instant);

/// `Instant::elapsed` returns the time that has passed since the instant was
/// taken; nothing is claimed of it.
pub assume_specification[ Instant::elapsed ](t: &Instant) -> (d: Duration);

/// `Duration::as_nanos` returns the whole duration in nanoseconds; nothing is
/// claimed of the number.
pub assume_specification[ Duration::as_nanos ](d: &Duration) -> (n: u128);

/// The largest reading, taken for any duration that a `u64` cannot hold.
pub open spec fn clamp_nanos(n: u128) -> u64 {
    if n > u64::MAX {
        u64::MAX
    } else {
        n as u64
    }
}

/// Brings a nanosecond count into `u64`, saturating at `u64::MAX`.
pub fn saturate_nanos(n: u128) -> (t: u64)
    ensures
        t == clamp_nanos(n),
{
    if n > u64::MAX as u128 {
        u64::MAX
    } else {
        n as u64
    }
}

/// The nanoseconds that have passed since `origin` was taken, read off the
/// clock at the moment of the call. The reading depends on that moment
/// alone, so nothing is promised of it; [`saturate_nanos`] says how the
/// clock's count becomes the reading.
pub(crate) fn nanos_since(origin: &Instant) -> (t: u64) {
    let d = origin.elapsed();
    saturate_nanos(d.as_nanos())
}

/// `later - earlier`, or zero where `later` is not later.
pub open spec fn span_between(earlier: u64, later: u64) -> u64 {
    if later >= earlier {
        (later - earlier) as u64
    } else {
        0
    }
}

/// The time from `earlier` to `later`, zero where the two are out of order.
pub fn elapsed_between(earlier: u64, later: u64) -> (d: u64)
    ensures
        d == span_between(earlier, later),
{
    if later >= earlier {
        later - earlier
    } else {
        0
    }
}

} // verus!
