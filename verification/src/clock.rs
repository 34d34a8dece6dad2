//! The wall clock, through `chrono`.

use chrono::Utc;
use vstd::prelude::*;

verus! {

/// The last second that `chrono` can tell: the end of the year 262142.
pub const LATEST_TIMESTAMP: i64 = 8_210_266_876_799;

/// The moments that the clock can show: from the Unix epoch to the last
/// second that `chrono` can tell.
pub open spec fn on_the_clock(now: int) -> bool {
    0 <= now <= LATEST_TIMESTAMP
}

/// `Utc::now()` and `DateTime::timestamp`: the seconds since the Unix epoch
/// at the moment of the call. Two calls may differ, so the result has no
/// name; callers are verified for every value of it. What is said of it is
/// its range: `Utc::now` measures the time since the epoch and makes a
/// `DateTime` of it, so it hands out no moment before the epoch and none
/// after the last `DateTime`. Where the system clock stands outside that
/// range, `Utc::now` does not return.
#[verifier::external_body]
pub(crate) fn current_timestamp() -> (now: i64)
    ensures
        on_the_clock(now as int),
{
    Utc::now().timestamp()
}

} // verus!
