use vstd::prelude::*;

verus! {

/// Whether chrono accepts `year-month-day` as a calendar date.
pub uninterp spec fn calendar_date_exists(year: i32, month: u32, day: u32) -> bool;

/// Relies on chrono's `NaiveDate::from_ymd_opt`, which yields `None` for a day
/// that does not exist, an invalid month or day, or a year out of its range.
#[verifier::external_body]
fn check_calendar_date(year: i32, month: u32, day: u32) -> (r: bool)
    ensures
        r == calendar_date_exists(year, month, day),
        r ==> 1 <= month <= 12 && 1 <= day <= 31,
{
    chrono::NaiveDate::from_ymd_opt(year, month, day).is_some()
}

/// A calendar date with a time of day, as an operation date of a statement.
#[derive(Debug, Clone, Copy, PartialEq, Eq, Structural)]
pub struct DateTime {
    pub year: i32,
    pub month: u32,
    pub day: u32,
    pub hour: u32,
    pub minute: u32,
    pub second: u32,
}

impl DateTime {
    /// The time of day is in range and the month and day are those of a calendar.
    pub open spec fn wf(&self) -> bool {
        &&& 1 <= self.month <= 12
        &&& 1 <= self.day <= 31
        &&& self.hour < 24
        &&& self.minute < 60
        &&& self.second < 60
    }

    pub open spec fn valid_parts(year: i32, month: u32, day: u32, hour: u32, minute: u32, second: u32) -> bool {
        &&& calendar_date_exists(year, month, day)
        &&& hour < 24
        &&& minute < 60
        &&& second < 60
    }

    /// The date and time with the given parts, if they name an existing moment.
    pub fn new(year: i32, month: u32, day: u32, hour: u32, minute: u32, second: u32) -> (r: Option<
        DateTime,
    >)
        ensures
            r is Some <==> Self::valid_parts(year, month, day, hour, minute, second),
            r matches Some(d) ==> d.wf() && d == (DateTime { year, month, day, hour, minute, second }),
    {
        if hour < 24 && minute < 60 && second < 60 && check_calendar_date(year, month, day) {
            Some(DateTime { year, month, day, hour, minute, second })
        } else {
            None
        }
    }
}

} // verus!
