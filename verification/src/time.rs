//! Time as the control core sees it: nanoseconds on a monotonic clock.

use vstd::prelude::*;
use std::time::Instant;

verus! {

/// `std::time::Instant`, a point on the monotonic clock of the machine.
/// Nothing is known of what it holds.
#[verifier::external_type_specification]
#[verifier::external_body]
pub struct ExInstant(Instant);

/// `std::time::Instant::now`: the current point on the clock. Nothing is
/// claimed of what it returns.
pub assume_specification[ std::time::Instant::now ]() -> std::time::Instant;

/// `std::time::Instant::elapsed`: the time that went by since the instant.
/// Nothing is claimed of what it returns.
pub assume_specification[ std::time::Instant::elapsed ](instant: &std::time::Instant) -> std::time::Duration;

/// `std::time::Duration::as_nanos`: the duration in whole nanoseconds.
/// Nothing is claimed of what it returns.
pub assume_specification[ std::time::Duration::as_nanos ](duration: &std::time::Duration) -> u128;

/// The time that has gone by from `earlier` to `later`; none where `later`
/// is not after `earlier`.
pub open spec fn since(later: int, earlier: int) -> int {
    if later >= earlier {
        later - earlier
    } else {
        0
    }
}

/// A monotonic clock that counts nanoseconds from the moment it was started.
#[derive(Debug, Clone, Copy)]
pub struct Clock {
    origin: Instant,
}

impl Clock {
    /// Starts a clock at the current moment.
    pub fn start() -> Clock {
        Clock { origin: Instant::now() }
    }

    /// The nanoseconds that went by since the clock was started; the count
    /// stops at the greatest 64-bit number.
    pub fn now(&self) -> u64 {
        whole_nanos(self.origin.elapsed().as_nanos())
    }
}

/// A count of nanoseconds as a clock reading: the count itself, or the
/// greatest 64-bit number where the count is greater than that.
pub open spec fn reading(nanos: int) -> int {
    if nanos > u64::MAX {
        u64::MAX as int
    } else {
        nanos
    }
}

/// Turns a count of nanoseconds into a clock reading, which stops at the
/// greatest 64-bit number.
pub fn whole_nanos(nanos: u128) -> (count: u64)
    ensures
        count == reading(nanos as int),
{
    if nanos > u64::MAX as u128 {
        u64::MAX
    } else {
        nanos as u64
    }
}

/// The time from `earlier` to `later`, none where `later` is not after
/// `earlier`.
pub fn span(earlier: u64, later: u64) -> (gone: u64)
    ensures
        gone == since(later as int, earlier as int),
{
    if later >= earlier {
        later - earlier
    } else {
        0
    }
}

} // verus!
