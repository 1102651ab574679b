use vstd::prelude::*;
use chrono::{Datelike, Timelike};

verus! {

/// Earliest and latest year of a calendar date.
pub const MIN_YEAR: i32 = -262143;

pub const MAX_YEAR: i32 = 262142;

pub open spec fn is_leap_year(y: int) -> bool {
    y % 4 == 0 && (y % 100 != 0 || y % 400 == 0)
}

pub open spec fn days_in_month(y: int, m: int) -> int {
    if m == 2 {
        if is_leap_year(y) {
            29
        } else {
            28
        }
    } else if m == 4 || m == 6 || m == 9 || m == 11 {
        30
    } else {
        31
    }
}

/// A day of the proleptic Gregorian calendar within the supported years.
pub open spec fn is_valid_date(year: i32, month: u32, day: u32) -> bool {
    MIN_YEAR <= year <= MAX_YEAR && 1 <= month <= 12 && 1 <= day <= days_in_month(
        year as int,
        month as int,
    )
}

/// Days from 1970-01-01 to the given date (negative before it), counting years from March
/// so that the leap day closes each year.
pub open spec fn days_from_epoch(year: int, month: int, day: int) -> int {
    let y = if month <= 2 {
        year - 1
    } else {
        year
    };
    let era = y / 400;
    let yoe = y - era * 400;
    let mp = if month > 2 {
        month - 3
    } else {
        month + 9
    };
    let doy = (153 * mp + 2) / 5 + day - 1;
    let doe = yoe * 365 + yoe / 4 - yoe / 100 + doy;
    era * 146097 + doe - 719468
}

/// Days since the last Monday, 0 for Monday up to 6 for Sunday (1970-01-01 was a Thursday).
pub open spec fn weekday_index(year: i32, month: u32, day: u32) -> int {
    (days_from_epoch(year as int, month as int, day as int) + 3) % 7
}

/// Relies on chrono's `NaiveDate::from_ymd_opt`, which gives `None` exactly for a day
/// that the calendar lacks or a year out of its range, and on `Datelike::weekday` with
/// `Weekday::num_days_from_monday` for the day of the week.
#[verifier::external_body]
fn date_weekday_index(year: i32, month: u32, day: u32) -> (r: Option<u32>)
    ensures
        r.is_some() <==> is_valid_date(year, month, day),
        r matches Some(w) ==> w as int == weekday_index(year, month, day),
{
    chrono::NaiveDate::from_ymd_opt(year, month, day).map(|d| d.weekday().num_days_from_monday())
}

/// Year, month, day, hour, minute and second that chrono reads from a timestamp written
/// `day-month-year hour:minute`.
pub uninterp spec fn parsed_date_time(text: Seq<char>) -> Option<(i32, u32, u32, u32, u32, u32)>;

/// Relies on chrono's `NaiveDateTime::parse_from_str` with the format `%d-%m-%Y %H:%M`: the
/// outcome depends on the text alone, and a parsed value is an existing calendar day at a
/// time of day (`Datelike` and `Timelike` read its fields).
#[verifier::external_body]
fn parse_date_time_fields(text: &str) -> (r: Option<(i32, u32, u32, u32, u32, u32)>)
    ensures
        r == parsed_date_time(text@),
        r matches Some(f) ==> is_valid_date(f.0, f.1, f.2) && f.3 < 24 && f.4 < 60 && f.5 < 60,
{
    chrono::NaiveDateTime::parse_from_str(text, "%d-%m-%Y %H:%M").ok().map(
        |t| (t.year(), t.month(), t.day(), t.hour(), t.minute(), t.second()),
    )
}

#[derive(Debug, Clone, Copy, PartialEq, Eq, Structural)]
pub enum Weekday {
    Monday,
    Tuesday,
    Wednesday,
    Thursday,
    Friday,
    Saturday,
    Sunday,
}

impl Weekday {
    pub open spec fn spec_from_index(i: int) -> Weekday {
        if i == 0 {
            Weekday::Monday
        } else if i == 1 {
            Weekday::Tuesday
        } else if i == 2 {
            Weekday::Wednesday
        } else if i == 3 {
            Weekday::Thursday
        } else if i == 4 {
            Weekday::Friday
        } else if i == 5 {
            Weekday::Saturday
        } else {
            Weekday::Sunday
        }
    }

    /// The day `i` days after a Monday, for `i` below 7.
    pub fn from_index(i: u32) -> (r: Weekday)
        requires
            i < 7,
        ensures
            r == Self::spec_from_index(i as int),
    {
        if i == 0 {
            Weekday::Monday
        } else if i == 1 {
            Weekday::Tuesday
        } else if i == 2 {
            Weekday::Wednesday
        } else if i == 3 {
            Weekday::Thursday
        } else if i == 4 {
            Weekday::Friday
        } else if i == 5 {
            Weekday::Saturday
        } else {
            Weekday::Sunday
        }
    }

    /// Monday to Friday.
    pub open spec fn spec_is_working_day(self) -> bool {
        !(self == Weekday::Saturday || self == Weekday::Sunday)
    }

    pub fn is_working_day(self) -> (r: bool)
        ensures
            r == self.spec_is_working_day(),
    {
        !(self == Weekday::Saturday || self == Weekday::Sunday)
    }
}

/// The calendar date and time of day at which a reading interval ended, with no time zone.
#[derive(Debug, Clone, Copy, PartialEq, Eq, Structural)]
pub struct ReadTimestamp {
    pub year: i32,
    pub month: u32,
    pub day: u32,
    pub hour: u32,
    pub minute: u32,
    pub second: u32,
    pub weekday: Weekday,
}

impl ReadTimestamp {
    /// The date exists, the time of day is one, and the weekday is that of the date.
    pub open spec fn wf(self) -> bool {
        is_valid_date(self.year, self.month, self.day) && self.hour < 24 && self.minute < 60
            && self.second < 60 && self.weekday == Weekday::spec_from_index(
            weekday_index(self.year, self.month, self.day),
        )
    }

    /// Seconds since midnight.
    pub open spec fn seconds_of_day(self) -> int {
        self.hour * 3600 + self.minute * 60 + self.second
    }

    /// The timestamp for a date and a time of day; `None` when either does not exist.
    pub fn new(year: i32, month: u32, day: u32, hour: u32, minute: u32, second: u32) -> (r: Option<
        ReadTimestamp,
    >)
        ensures
            r.is_some() <==> (is_valid_date(year, month, day) && hour < 24 && minute < 60 && second
                < 60),
            r matches Some(t) ==> t.wf() && t.year == year && t.month == month && t.day == day
                && t.hour == hour && t.minute == minute && t.second == second,
    {
        if hour >= 24 || minute >= 60 || second >= 60 {
            return None;
        }
        match date_weekday_index(year, month, day) {
            None => None,
            Some(w) => {
                assert(0 <= weekday_index(year, month, day) < 7);
                Some(
                    ReadTimestamp {
                        year,
                        month,
                        day,
                        hour,
                        minute,
                        second,
                        weekday: Weekday::from_index(w),
                    },
                )
            },
        }
    }

    /// Reads a timestamp written `day-month-year hour:minute` (24-hour clock, no time zone);
    /// `None` where chrono does not accept the text.
    pub fn parse(text: &str) -> (r: Option<ReadTimestamp>)
        ensures
            r.is_some() <==> parsed_date_time(text@).is_some(),
            r matches Some(t) ==> t.wf() && parsed_date_time(text@) == Some(
                (t.year, t.month, t.day, t.hour, t.minute, t.second),
            ),
    {
        match parse_date_time_fields(text) {
            None => None,
            Some(f) => ReadTimestamp::new(f.0, f.1, f.2, f.3, f.4, f.5),
        }
    }

    /// Checks the invariant: the date exists, the time of day is one, and the weekday is
    /// that of the date.
    pub fn is_well_formed(&self) -> (r: bool)
        ensures
            r == self.wf(),
    {
        if self.hour >= 24 || self.minute >= 60 || self.second >= 60 {
            return false;
        }
        match date_weekday_index(self.year, self.month, self.day) {
            None => false,
            Some(w) => {
                assert(0 <= weekday_index(self.year, self.month, self.day) < 7);
                Weekday::from_index(w) == self.weekday
            },
        }
    }

    /// Seconds since midnight.
    pub fn seconds_since_midnight(&self) -> (r: u64)
        ensures
            r as int == self.seconds_of_day(),
    {
        self.hour as u64 * 3600 + self.minute as u64 * 60 + self.second as u64
    }
}

/// Whether energy was drawn from the grid or fed into it.
#[derive(Debug, Clone, Copy, PartialEq, Eq, Structural)]
pub enum SmartMeterDataType {
    ActiveImport,
    ActiveExport,
}

/// One smart-meter interval reading; the value is in watt-hours.
#[derive(Debug, Clone)]
pub struct SmartMeterData {
    pub mprn: String,
    pub meter_serial_number: String,
    pub read_value: u32,
    pub read_type: SmartMeterDataType,
    pub read_date_and_end_time: ReadTimestamp,
}

} // verus!
