//! The wall clock, read once and handed on as plain values.

use crate::data::{Timestamp, Weekday};
use chrono::{Datelike, Timelike};
use vstd::prelude::*;

verus! {

/// One reading of the UTC wall clock.
#[derive(Debug, Clone, Copy, PartialEq, Eq, Structural)]
pub struct Now {
    /// The hour of the day.
    pub hour: u32,
    /// The minute of the hour.
    pub minute: u32,
    /// The day of the week.
    pub weekday: Weekday,
    /// The reading as a point in time.
    pub at: Timestamp,
}

/// Reads the clock with `chrono::Utc::now` and takes the reading apart with
/// chrono's accessors. Nothing is claimed of the reading but what chrono
/// documents of every time of day: an hour from 0 to 23 and a minute from 0 to
/// 59. chrono gives up when the system clock stands before 1970.
#[verifier::external_body]
pub(crate) fn now() -> (now: Now)
    ensures
        now.hour < 24,
        now.minute < 60,
{
    let t = chrono::Utc::now();
    let weekday = match t.weekday() {
        chrono::Weekday::Mon => Weekday::Mon,
        chrono::Weekday::Tue => Weekday::Tue,
        chrono::Weekday::Wed => Weekday::Wed,
        chrono::Weekday::Thu => Weekday::Thu,
        chrono::Weekday::Fri => Weekday::Fri,
        chrono::Weekday::Sat => Weekday::Sat,
        chrono::Weekday::Sun => Weekday::Sun,
    };
    let at = Timestamp { seconds: t.timestamp(), nanos: t.timestamp_subsec_nanos() };
    Now { hour: t.hour(), minute: t.minute(), weekday, at }
}

} // verus!
