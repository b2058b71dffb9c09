//! Durations and moments, counted in nanoseconds.
//!
//! A duration is a `u128` number of nanoseconds no larger than [`MAX_SPAN`],
//! the largest duration that `std::time::Duration` holds. A moment is the
//! duration elapsed since a fixed origin chosen by the caller, so it obeys the
//! same bound.
use vstd::prelude::*;

verus! {

/// Nanoseconds in one second.
pub const NANOS_PER_SEC: u128 = 1_000_000_000;

/// The largest duration: `u64::MAX` seconds and 999_999_999 nanoseconds.
pub const MAX_SPAN: u128 = 18_446_744_073_709_551_615_999_999_999;

/// The duration of `secs` whole seconds.
pub fn span_from_secs(secs: u64) -> (span: u128)
    ensures
        span == secs * NANOS_PER_SEC,
        span <= MAX_SPAN,
{
    secs as u128 * NANOS_PER_SEC
}

/// The whole seconds in `span`, rounded down.
pub fn span_as_secs(span: u128) -> (secs: u64)
    requires
        span <= MAX_SPAN,
    ensures
        secs == span / NANOS_PER_SEC,
{
    (span / NANOS_PER_SEC) as u64
}

/// What is left from `now` until `target`: zero once `target` has passed.
pub open spec fn time_until(target: int, now: int) -> int {
    if target > now {
        target - now
    } else {
        0
    }
}

/// The time left from `now` until `target`, zero when `target` is not later.
pub fn saturating_since(target: u128, now: u128) -> (left: u128)
    ensures
        left == time_until(target as int, now as int),
{
    if target > now {
        target - now
    } else {
        0
    }
}

} // verus!
