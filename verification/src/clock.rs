//! The wall clock and the stopwatch. What they return depends on the
//! moment of the call, so next to nothing is stated of it: the callers
//! are verified for every value.

use vstd::prelude::*;

verus! {

/// `std::time::Instant`: a reading of the monotonic clock.
#[verifier::external_type_specification]
#[verifier::external_body]
pub struct ExInstant(std::time::Instant);

/// `Instant::now` reads the monotonic clock.
pub assume_specification[ std::time::Instant::now ]() -> std::time::Instant;

/// `Instant::elapsed` gives the time that has passed since the reading.
pub assume_specification[ std::time::Instant::elapsed ](
    start: &std::time::Instant,
) -> core::time::Duration;

/// `Duration::as_millis` gives the whole milliseconds of a duration.
pub assume_specification[ core::time::Duration::as_millis ](
    duration: &core::time::Duration,
) -> u128;

/// The number of 1 January 1970 among the days counted from the year 1.
pub const UNIX_EPOCH_DAY: i64 = 719_163;

/// What holds of every reading of the wall clock: its day, counted from
/// the year 1, fits in 32 bits. So a reading is far from the largest
/// timestamp.
pub open spec fn clock_reading(now: int) -> bool {
    now / 86_400 + UNIX_EPOCH_DAY <= i32::MAX
}

/// Calls `chrono::Utc::now` and takes the Unix seconds of the result
/// with `timestamp`, which computes them from the number of the day, an
/// `i32` counted from the year 1, and the seconds of that day. The
/// contract claims no more than that of the time that comes back.
/// `Utc::now` panics where the system clock stands before 1970.
#[verifier::external_body]
pub(crate) fn unix_now() -> (now: i64)
    ensures
        clock_reading(now as int),
{
    chrono::Utc::now().timestamp()
}

/// A reading of the clock leaves room for the validity of a token.
pub proof fn lemma_clock_reading_is_bounded(now: int)
    requires
        clock_reading(now),
    ensures
        now <= 185_480_451_503_999,
        now + 86_400 <= i64::MAX,
{
}

} // verus!
