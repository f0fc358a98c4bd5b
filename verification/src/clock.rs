//! The clock: the present moment and the calendar day of a moment in the
//! time zone of the machine.

use crate::db::Timestamp;
use chrono::{DateTime, Datelike, Local};
use vstd::prelude::*;

verus! {

/// The earliest moment whose calendar day can be told, in seconds from the Unix epoch.
pub const EARLIEST_SECONDS: i64 = -8_000_000_000_000;

/// The latest moment whose calendar day can be told, in seconds from the Unix epoch.
pub const LATEST_SECONDS: i64 = 8_000_000_000_000;

/// The day on which a moment falls in universal time, counted from the
/// first day of year 1: day 719 163 began at the Unix epoch, and a day has
/// 86 400 seconds.
pub open spec fn universal_day(seconds: int) -> int {
    seconds / 86_400 + 719_163
}

/// Whether `day` can be the calendar day of the moment somewhere: local
/// time is less than a day ahead of universal time or behind it, so the
/// local day is the universal day or one of its two neighbours.
pub open spec fn day_fits(seconds: i64, day: i32) -> bool {
    universal_day(seconds as int) - 1 <= day <= universal_day(seconds as int) + 1
}

/// The calendar day, counted from the first day of year 1, on which a
/// moment falls in the local time zone.
///
/// Calls `chrono::DateTime::from_timestamp`, moves the result to
/// `chrono::Local` with `with_timezone`, and reads `date_naive()` and
/// `num_days_from_ce()` from it. `from_timestamp` gives `None` outside
/// chrono's range of dates, and `date_naive` panics within a day of the ends
/// of that range; both lie more than six thousand years beyond the bounds
/// required here. The time zone is the machine's, so the contract does not
/// say which day it is. It claims that there is one, and that it is the
/// universal day or a neighbour of it: `from_timestamp` counts the
/// universal day as `universal_day` does, the offset of `Local` is less
/// than a day either way, and `date_naive` is the date of universal time
/// plus that offset.
#[verifier::external_body]
pub(crate) fn local_day(seconds: i64) -> (day: Option<i32>)
    requires
        EARLIEST_SECONDS <= seconds <= LATEST_SECONDS,
    ensures
        day is Some,
        day matches Some(d) ==> day_fits(seconds, d),
{
    match DateTime::from_timestamp(seconds, 0) {
        Some(utc) => Some(utc.with_timezone(&Local).date_naive().num_days_from_ce()),
        None => None,
    }
}

/// The present moment in seconds from the Unix epoch.
///
/// Calls `chrono::Local::now` and reads `timestamp()` from it. Nothing is
/// claimed of the result. The call does not return where the system clock
/// stands before 1970 or beyond chrono's range of dates.
#[verifier::external_body]
pub(crate) fn seconds_now() -> i64 {
    Local::now().timestamp()
}

impl Timestamp {
    /// Whether the day can be the calendar day of the seconds somewhere.
    pub open spec fn plausible(self) -> bool {
        day_fits(self.seconds, self.day)
    }

    /// The moment `seconds` after the Unix epoch with its local calendar day,
    /// for every moment whose day can be told. The day is the day in
    /// universal time or one of its two neighbours.
    pub fn at(seconds: i64) -> (moment: Option<Timestamp>)
        ensures
            moment is Some <==> EARLIEST_SECONDS <= seconds <= LATEST_SECONDS,
            moment matches Some(t) ==> t.seconds == seconds && t.plausible(),
    {
        if seconds < EARLIEST_SECONDS || seconds > LATEST_SECONDS {
            return None;
        }
        match local_day(seconds) {
            Some(day) => Some(Timestamp { seconds, day }),
            None => None,
        }
    }

    /// The present moment with its local calendar day, if its day can be told.
    pub fn now() -> (moment: Option<Timestamp>)
        ensures
            moment matches Some(t) ==> EARLIEST_SECONDS <= t.seconds <= LATEST_SECONDS && t.plausible(),
    {
        Timestamp::at(seconds_now())
    }
}

} // verus!
