//! Calendar dates of the proleptic Gregorian calendar, and their text in
//! records.

use vstd::prelude::*;
use crate::text::zero_padded;

verus! {

/// The first year that a date can lie in.
pub const MIN_YEAR: i32 = -262143;

/// The last year that a date can lie in.
pub const MAX_YEAR: i32 = 262142;

/// Whether the year `year` has a 29th of February.
pub open spec fn is_leap_year(year: int) -> bool {
    year % 4 == 0 && (year % 100 != 0 || year % 400 == 0)
}

/// The number of days of the month `month` (1 to 12) in the year `year`.
pub open spec fn days_in_month(year: int, month: int) -> int {
    if month == 2 {
        if is_leap_year(year) {
            29
        } else {
            28
        }
    } else if month == 4 || month == 6 || month == 9 || month == 11 {
        30
    } else {
        31
    }
}

/// Whether year, month and day name a day of the calendar.
pub open spec fn valid_ymd(year: int, month: int, day: int) -> bool {
    &&& MIN_YEAR <= year <= MAX_YEAR
    &&& 1 <= month <= 12
    &&& 1 <= day <= days_in_month(year, month)
}

/// The year's text in a record: four digits, padded with zeros, for the
/// years 0 to 9999; outside them a sign and at least four digits.
pub open spec fn year_text(year: int) -> Seq<char> {
    if year < 0 {
        seq!['-'] + zero_padded((-year) as nat, 4)
    } else if year <= 9999 {
        zero_padded(year as nat, 4)
    } else {
        seq!['+'] + zero_padded(year as nat, 4)
    }
}

/// A date's text in a record: month, day and year, with a slash between.
pub open spec fn mdy_text(year: int, month: int, day: int) -> Seq<char> {
    zero_padded(month as nat, 2) + seq!['/'] + zero_padded(day as nat, 2) + seq!['/'] + year_text(
        year,
    )
}

/// What a date is: its year, month and day.
pub struct DateView {
    pub year: int,
    pub month: int,
    pub day: int,
}

impl DateView {
    /// Whether this is a day of the calendar.
    pub open spec fn valid(self) -> bool {
        valid_ymd(self.year, self.month, self.day)
    }

    /// The date's text in a record.
    pub open spec fn text(self) -> Seq<char> {
        mdy_text(self.year, self.month, self.day)
    }
}

/// A day of the calendar, without a time of day.
#[derive(Clone, Copy, Debug, PartialEq, Eq)]
pub struct Date {
    year: i32,
    month: u32,
    day: u32,
}

impl View for Date {
    type V = DateView;

    closed spec fn view(&self) -> DateView {
        DateView { year: self.year as int, month: self.month as int, day: self.day as int }
    }
}

/// Formats a date with chrono's `NaiveDate::format` and the pattern
/// `%m/%d/%Y`. By chrono's formatting code, `%m` and `%d` write two digits
/// padded with a zero, and `%Y` writes the year padded with zeros to four
/// digits, behind a sign where the year is not one of 0 to 9999.
/// `NaiveDate::from_ymd_opt` accepts every day of the calendar from
/// `MIN_YEAR` to `MAX_YEAR`.
#[verifier::external_body]
fn chrono_format_mdy(year: i32, month: u32, day: u32) -> (text: String)
    requires
        valid_ymd(year as int, month as int, day as int),
    ensures
        text@ == mdy_text(year as int, month as int, day as int),
{
    chrono::NaiveDate::from_ymd_opt(year, month, day).unwrap().format("%m/%d/%Y").to_string()
}

/// Reads the clock with chrono's `Utc::now` and takes the year, month and
/// day of that moment in UTC. Which day comes back depends on the clock;
/// a `NaiveDate` always is a day of the calendar.
#[verifier::external_body]
fn chrono_utc_today() -> (ymd: (i32, u32, u32))
    ensures
        valid_ymd(ymd.0 as int, ymd.1 as int, ymd.2 as int),
{
    let today = chrono::Utc::now().date_naive();
    (
        chrono::Datelike::year(&today),
        chrono::Datelike::month(&today),
        chrono::Datelike::day(&today),
    )
}

/// Whether the year `year` has a 29th of February.
pub fn leap_year(year: i32) -> (leap: bool)
    ensures
        leap == is_leap_year(year as int),
{
    year % 4 == 0 && (year % 100 != 0 || year % 400 == 0)
}

/// The number of days of the month `month` in the year `year`.
pub fn month_length(year: i32, month: u32) -> (days: u32)
    ensures
        days == days_in_month(year as int, month as int),
{
    if month == 2 {
        if leap_year(year) {
            29
        } else {
            28
        }
    } else if month == 4 || month == 6 || month == 9 || month == 11 {
        30
    } else {
        31
    }
}

impl Date {
    #[verifier::type_invariant]
    spec fn is_calendar_day(self) -> bool {
        valid_ymd(self.year as int, self.month as int, self.day as int)
    }

    /// The date with this year, month and day, if there is such a day.
    pub fn from_ymd(year: i32, month: u32, day: u32) -> (date: Option<Date>)
        ensures
            date is Some <==> valid_ymd(year as int, month as int, day as int),
            date matches Some(d) ==> d@ == (DateView {
                year: year as int,
                month: month as int,
                day: day as int,
            }),
    {
        if MIN_YEAR <= year && year <= MAX_YEAR && 1 <= month && month <= 12 && 1 <= day && day
            <= month_length(year, month) {
            Some(Date { year, month, day })
        } else {
            None
        }
    }

    /// The day that it is now, in UTC.
    pub fn today() -> (date: Date)
        ensures
            date@.valid(),
    {
        let (year, month, day) = chrono_utc_today();
        Date { year, month, day }
    }

    /// The year. Every date is a day of the calendar.
    pub fn year(&self) -> (year: i32)
        ensures
            year == self@.year,
            self@.valid(),
    {
        proof {
            use_type_invariant(self);
        }
        self.year
    }

    /// The month, from 1 to 12.
    pub fn month(&self) -> (month: u32)
        ensures
            month == self@.month,
            1 <= month <= 12,
    {
        proof {
            use_type_invariant(self);
        }
        self.month
    }

    /// The day of the month, from 1.
    pub fn day(&self) -> (day: u32)
        ensures
            day == self@.day,
            1 <= day <= days_in_month(self@.year, self@.month),
    {
        proof {
            use_type_invariant(self);
        }
        self.day
    }

    /// The date's text in a record: `11/28/2020` for the 28th of November 2020.
    pub fn render(&self) -> (text: String)
        ensures
            text@ == self@.text(),
    {
        proof {
            use_type_invariant(self);
        }
        chrono_format_mdy(self.year, self.month, self.day)
    }
}

} // verus!
