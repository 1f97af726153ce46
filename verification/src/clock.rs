//! Points in time, as the service reads them from the system clock.

use vstd::prelude::*;

verus! {

/// The latest Unix timestamp a `chrono::DateTime<Utc>` can hold
/// (December 31, 262142, 23:59:59).
pub const MAX_UTC_TIMESTAMP: i64 = 8210266876799;

/// Seconds in a day.
pub const SECONDS_PER_DAY: i64 = 86400;

/// A UTC instant: whole seconds since the Unix epoch and the nanoseconds past them.
#[derive(Debug, Clone, Copy, PartialEq, Eq, Structural)]
pub struct UtcTime {
    pub secs: i64,
    pub nanos: u32,
}

/// Holds of the instants [`now_utc`] returns. Its definition is closed: outside
/// this module an instant is known to be a clock reading only by having been
/// read, so a value computed from a reading is not one.
pub closed spec fn clock_reading(t: UtcTime) -> bool {
    true
}

/// Reads `chrono::Utc::now()`. chrono's `now` panics when the system clock is
/// before the Unix epoch, a `DateTime<Utc>` never lies past `MAX_UTC_TIMESTAMP`,
/// and the sub-second part of a system time is below one second; which
/// moment comes back is not stated.
#[verifier::external_body]
pub(crate) fn now_utc() -> (r: UtcTime)
    ensures
        clock_reading(r),
        0 <= r.secs <= MAX_UTC_TIMESTAMP,
        r.nanos < 1_000_000_000,
{
    let now = chrono::Utc::now();
    UtcTime { secs: now.timestamp(), nanos: now.timestamp_subsec_nanos() }
}

impl UtcTime {
    /// This instant moved `days` days later, when chrono can still represent
    /// the result (adding a duration to a `DateTime<Utc>` otherwise panics).
    pub fn plus_days(self, days: i64) -> (r: Option<UtcTime>)
        requires
            0 <= self.secs <= MAX_UTC_TIMESTAMP,
            0 <= days * SECONDS_PER_DAY <= i64::MAX,
        ensures
            self.secs + days * SECONDS_PER_DAY <= MAX_UTC_TIMESTAMP ==> (r matches Some(t) && t.secs
                == self.secs + days * SECONDS_PER_DAY && t.nanos == self.nanos),
            self.secs + days * SECONDS_PER_DAY > MAX_UTC_TIMESTAMP ==> r is None,
    {
        if self.secs > MAX_UTC_TIMESTAMP - days * SECONDS_PER_DAY {
            None
        } else {
            Some(UtcTime { secs: self.secs + days * SECONDS_PER_DAY, nanos: self.nanos })
        }
    }
}

} // verus!
