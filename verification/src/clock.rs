//! Calendar dates, times of day, and the timestamp that a ledger line starts
//! with. The calendar itself is chrono's: this module carries dates and times
//! as plain numbers and asks chrono to read the clock, to find the local
//! zone's offset and to render the timestamp.

use vstd::prelude::*;

verus! {

/// A calendar date as three numbers. Any numbers can stand here;
/// `is_calendar_day` says whether they name a day of the calendar.
#[derive(Clone, Copy, Debug, PartialEq, Eq, Structural)]
pub struct Date {
    pub year: i32,
    pub month: u32,
    pub day: u32,
}

/// A time of day. As in chrono, a leap second is second 59 with a billion
/// or more nanoseconds.
#[derive(Clone, Copy, Debug, PartialEq, Eq, Structural)]
pub struct TimeOfDay {
    pub hour: u32,
    pub minute: u32,
    pub second: u32,
    pub nanosecond: u32,
}

/// A date and a time of day, with no zone attached.
#[derive(Clone, Copy, Debug, PartialEq, Eq, Structural)]
pub struct Moment {
    pub date: Date,
    pub time: TimeOfDay,
}

/// Whether a year has a 29th of February, by the Gregorian rule applied to
/// every year, with a year 0 and negative years before it.
pub open spec fn is_leap_year(year: int) -> bool {
    year % 4 == 0 && (year % 100 != 0 || year % 400 == 0)
}

/// The number of days of a month of a year.
pub open spec fn days_in_month(year: int, month: int) -> int {
    if month == 2 {
        if is_leap_year(year) {
            29
        } else {
            28
        }
    } else if month == 4 || month == 6 || month == 9 || month == 11 {
        30
    } else {
        31
    }
}

/// Whether the numbers of a date name a day of the calendar.
pub open spec fn is_calendar_day(date: Date) -> bool {
    1 <= date.month <= 12 && 1 <= date.day <= days_in_month(date.year as int, date.month as int)
}

/// Whether the numbers of a time name a time of day.
pub open spec fn is_time_of_day(time: TimeOfDay) -> bool {
    time.hour < 24 && time.minute < 60 && time.second < 60 && (time.nanosecond < 1_000_000_000 || (time.second
        == 59 && time.nanosecond < 2_000_000_000))
}

/// Whether a number of seconds is an offset from UTC: less than a day
/// either way.
pub open spec fn is_offset(offset_seconds: int) -> bool {
    -86_400 < offset_seconds < 86_400
}

/// Whether a timestamp can be made of a moment at an offset.
pub open spec fn can_stamp(moment: Moment, offset_seconds: int) -> bool {
    is_calendar_day(moment.date) && is_time_of_day(moment.time) && is_offset(offset_seconds)
}

/// The years for which a timestamp is promised. chrono's calendar ends a
/// little beyond them, at a point that depends on the offset.
pub open spec fn in_promised_years(date: Date) -> bool {
    -262_000 <= date.year <= 262_000
}

/// The date and time of an entry: each is the one given, or else the one of
/// the single clock reading `now`.
pub open spec fn resolved(date: Option<Date>, time: Option<TimeOfDay>, now: Moment) -> Moment {
    Moment {
        date: match date {
            Some(d) => d,
            None => now.date,
        },
        time: match time {
            Some(t) => t,
            None => now.time,
        },
    }
}

/// Fills in whichever of date and time was not given from one clock reading.
pub fn resolve(date: Option<Date>, time: Option<TimeOfDay>, now: Moment) -> (out: Moment)
    ensures
        out == resolved(date, time, now),
{
    Moment {
        date: match date {
            Some(d) => d,
            None => now.date,
        },
        time: match time {
            Some(t) => t,
            None => now.time,
        },
    }
}

/// The text that chrono's `DateTime::to_rfc3339` gives for the date and time
/// of these numbers at an offset of `offset_seconds` east of UTC, such as
/// `1996-12-19T16:39:57-08:00`. It has a meaning only where chrono accepts
/// the numbers as a date, a time and an offset.
pub uninterp spec fn rfc3339_text(
    year: int,
    month: int,
    day: int,
    hour: int,
    minute: int,
    second: int,
    nanosecond: int,
    offset_seconds: int,
) -> Seq<char>;

/// The timestamp text of a moment at an offset.
pub open spec fn stamp_text(moment: Moment, offset_seconds: int) -> Seq<char> {
    rfc3339_text(
        moment.date.year as int,
        moment.date.month as int,
        moment.date.day as int,
        moment.time.hour as int,
        moment.time.minute as int,
        moment.time.second as int,
        moment.time.nanosecond as int,
        offset_seconds,
    )
}

/// Reads the wall clock through chrono's `Local::now` and takes the local
/// date and time apart. Nothing is claimed of the reading. chrono panics
/// where the system clock stands before 1970 or the machine's zone data
/// cannot be used.
#[verifier::external_body]
pub(crate) fn wall_clock() -> (now: Moment) {
    let now = chrono::Local::now().naive_local();
    Moment {
        date: Date {
            year: chrono::Datelike::year(&now),
            month: chrono::Datelike::month(&now),
            day: chrono::Datelike::day(&now),
        },
        time: TimeOfDay {
            hour: chrono::Timelike::hour(&now),
            minute: chrono::Timelike::minute(&now),
            second: chrono::Timelike::second(&now),
            nanosecond: chrono::Timelike::nanosecond(&now),
        },
    }
}

/// Asks chrono, through `NaiveDateTime::and_local_timezone` with `Local`,
/// for the offset in seconds east of UTC that the machine's zone has at a
/// moment. `None` where chrono rejects the numbers or the zone has no single
/// offset then (a clock change). Nothing is claimed of the offset: it is the
/// machine's. chrono panics where the machine's zone data cannot be used.
#[verifier::external_body]
pub(crate) fn local_offset(moment: &Moment) -> (out: Option<i32>) {
    let date = chrono::NaiveDate::from_ymd_opt(moment.date.year, moment.date.month, moment.date.day)?;
    let time = chrono::NaiveTime::from_hms_nano_opt(
        moment.time.hour,
        moment.time.minute,
        moment.time.second,
        moment.time.nanosecond,
    )?;
    let local = chrono::NaiveDateTime::new(date, time).and_local_timezone(chrono::Local).single()?;
    Some(local.offset().local_minus_utc())
}

/// Renders a moment at a fixed offset with chrono's `DateTime::to_rfc3339`,
/// after `NaiveDate::from_ymd_opt`, `NaiveTime::from_hms_nano_opt`,
/// `FixedOffset::east_opt` and `NaiveDateTime::and_local_timezone` have made
/// the value. Three things are claimed and not proved: a text that comes back
/// is the one chrono gives for these numbers; none comes back unless the
/// numbers name a day of the calendar, a time of day and an offset, which
/// is when those constructors accept them; and one does come back for such
/// numbers in the promised years, where moving by the offset cannot leave
/// chrono's range.
#[verifier::external_body]
pub(crate) fn rfc3339(moment: &Moment, offset_seconds: i32) -> (out: Option<String>)
    ensures
        out matches Some(text) ==> text@ == rfc3339_text(
            moment.date.year as int,
            moment.date.month as int,
            moment.date.day as int,
            moment.time.hour as int,
            moment.time.minute as int,
            moment.time.second as int,
            moment.time.nanosecond as int,
            offset_seconds as int,
        ),
        out is Some ==> can_stamp(*moment, offset_seconds as int),
        can_stamp(*moment, offset_seconds as int) && in_promised_years(moment.date) ==> out is Some,
{
    let date = chrono::NaiveDate::from_ymd_opt(moment.date.year, moment.date.month, moment.date.day)?;
    let time = chrono::NaiveTime::from_hms_nano_opt(
        moment.time.hour,
        moment.time.minute,
        moment.time.second,
        moment.time.nanosecond,
    )?;
    let zone = chrono::FixedOffset::east_opt(offset_seconds)?;
    let stamp = chrono::NaiveDateTime::new(date, time).and_local_timezone(zone).single()?;
    Some(stamp.to_rfc3339())
}

} // verus!
