//! Calendar dates and times of day as plain numbers, and the inference of the
//! year that a printed day and month belong to.

use vstd::prelude::*;
use crate::text::{decimal, parse_usize, split_once, text_split_once};

verus! {

/// `chrono::ParseError`: why a text is no time of a format.
#[verifier::external_type_specification]
#[verifier::external_body]
pub struct ExChronoParseError(chrono::ParseError);

/// The least year of a date.
pub const MIN_YEAR: i32 = -262143;

/// The greatest year of a date.
pub const MAX_YEAR: i32 = 262142;

/// How far, in days, a printed date may lie from today and still belong to
/// this year.
pub const YEAR_WINDOW: i64 = 60;

/// The format of the times that an hour block prints.
pub const TIME_FORMAT: &'static str = "%H:%M";

/// Whether `year` is a leap year of the Gregorian calendar.
pub open spec fn is_leap_year(year: int) -> bool {
    year % 4 == 0 && (year % 100 != 0 || year % 400 == 0)
}

/// The number of days of a month.
pub open spec fn days_in_month(year: int, month: int) -> int {
    if month == 2 {
        if is_leap_year(year) {
            29
        } else {
            28
        }
    } else if month == 4 || month == 6 || month == 9 || month == 11 {
        30
    } else {
        31
    }
}

/// The number of days of a year that lie before a month.
pub open spec fn days_before_month(year: int, month: int) -> int
    decreases month,
{
    if month <= 1 {
        0
    } else {
        days_before_month(year, month - 1) + days_in_month(year, month - 1)
    }
}

/// Whether there is such a day in the Gregorian calendar, in a year that a
/// date can hold.
pub open spec fn is_date(year: int, month: int, day: int) -> bool {
    &&& MIN_YEAR <= year <= MAX_YEAR
    &&& 1 <= month <= 12
    &&& 1 <= day <= days_in_month(year, month)
}

/// The number of a day, counted from the last day before year 1.
pub open spec fn day_number(year: int, month: int, day: int) -> int {
    let before = year - 1;
    365 * before + before / 4 - before / 100 + before / 400 + days_before_month(year, month) + day
}

/// A day of the Gregorian calendar.
#[derive(Debug, PartialEq, Eq, Hash, Clone, Copy, Structural)]
pub struct Date {
    pub year: i32,
    pub month: u32,
    pub day: u32,
}

impl Date {
    /// Whether there is such a day.
    pub open spec fn wf(self) -> bool {
        is_date(self.year as int, self.month as int, self.day as int)
    }

    /// The number of the day, counted from the last day before year 1.
    pub open spec fn number(self) -> int {
        day_number(self.year as int, self.month as int, self.day as int)
    }
}

impl View for Date {
    type V = Date;

    open spec fn view(&self) -> Date {
        *self
    }
}

impl DeepView for Date {
    type V = Date;

    open spec fn deep_view(&self) -> Date {
        *self
    }
}

/// A time of day, to the second.
#[derive(Debug, PartialEq, Eq, Hash, Clone, Copy, Structural)]
pub struct Time {
    pub hour: u32,
    pub minute: u32,
    pub second: u32,
}

impl Time {
    /// Whether there is such a time on the clock.
    pub open spec fn wf(self) -> bool {
        self.hour < 24 && self.minute < 60 && self.second < 60
    }

    /// The seconds since midnight.
    pub open spec fn seconds(self) -> int {
        self.hour * 3600 + self.minute * 60 + self.second
    }
}

/// The whole minutes that pass from one time of day to a later one; negative
/// where the second time is the earlier one.
pub open spec fn minutes_between(from: Time, to: Time) -> int {
    let seconds = to.seconds() - from.seconds();
    if seconds >= 0 {
        seconds / 60
    } else {
        -((-seconds) / 60)
    }
}

/// The words that the `Display` of `chrono::ParseError` writes of an error.
pub uninterp spec fn time_error_words(error: chrono::ParseError) -> Seq<char>;

/// The `Display` of `chrono::ParseError`: the error in the words of `chrono`.
#[verifier::external_body]
pub(crate) fn time_error_message(error: &chrono::ParseError) -> (words: String)
    ensures
        words@ == time_error_words(*error),
{
    format!("{}", error)
}

/// The time of day that `chrono::NaiveTime::parse_from_str` reads `text` as
/// by the format `format`.
pub uninterp spec fn parsed_time(text: Seq<char>, format: Seq<char>) -> Option<Time>;

/// `chrono::NaiveTime::parse_from_str`, with the time handed out by its hour,
/// minute and second, which `chrono::Timelike` keeps below 24, 60 and 60.
#[verifier::external_body]
pub(crate) fn parse_time(text: &str, format: &str) -> (r: Result<Time, chrono::ParseError>)
    ensures
        match r {
            Ok(time) => parsed_time(text@, format@) == Some(time) && time.wf(),
            Err(_) => parsed_time(text@, format@) is None,
        },
{
    chrono::NaiveTime::parse_from_str(text, format).map(
        |t| Time {
            hour: chrono::Timelike::hour(&t),
            minute: chrono::Timelike::minute(&t),
            second: chrono::Timelike::second(&t),
        },
    )
}

/// `chrono::NaiveDate::from_ymd_opt`: the date, where there is such a day
/// and the year is one that a date can hold.
#[verifier::external_body]
pub(crate) fn make_date(year: i32, month: u32, day: u32) -> (r: Option<Date>)
    ensures
        r == if is_date(year as int, month as int, day as int) {
            Some(Date { year, month, day })
        } else {
            None
        },
{
    chrono::NaiveDate::from_ymd_opt(year, month, day).map(
        |d| Date {
            year: chrono::Datelike::year(&d),
            month: chrono::Datelike::month(&d),
            day: chrono::Datelike::day(&d),
        },
    )
}

/// `chrono::NaiveDate::signed_duration_since`, in whole days
/// (`chrono::TimeDelta::num_days`): the days from `earlier` to `later`.
#[verifier::external_body]
pub(crate) fn days_between(later: Date, earlier: Date) -> (days: i64)
    requires
        later.wf(),
        earlier.wf(),
    ensures
        days == later.number() - earlier.number(),
{
    let a = chrono::NaiveDate::from_ymd_opt(later.year, later.month, later.day).unwrap();
    let b = chrono::NaiveDate::from_ymd_opt(earlier.year, earlier.month, earlier.day).unwrap();
    a.signed_duration_since(b).num_days()
}

/// `chrono::Local::now` and `chrono::DateTime::date_naive`: the day that the
/// machine's clock and time zone show.
#[verifier::external_body]
pub(crate) fn local_today() -> (today: Date)
    ensures
        today.wf(),
{
    let d = chrono::Local::now().date_naive();
    Date {
        year: chrono::Datelike::year(&d),
        month: chrono::Datelike::month(&d),
        day: chrono::Datelike::day(&d),
    }
}

impl Date {
    /// The date, where there is such a day.
    pub fn new(year: i32, month: u32, day: u32) -> (r: Option<Date>)
        ensures
            r == if is_date(year as int, month as int, day as int) {
                Some(Date { year, month, day })
            } else {
                None
            },
    {
        make_date(year, month, day)
    }

    /// Today's date by the machine's clock.
    pub fn today() -> (today: Date)
        ensures
            today.wf(),
    {
        local_today()
    }

    /// The days from `earlier` to this day.
    pub fn days_since(self, earlier: Date) -> (days: i64)
        requires
            self.wf(),
            earlier.wf(),
        ensures
            days == self.number() - earlier.number(),
    {
        days_between(self, earlier)
    }
}

impl Time {
    /// The whole minutes from this time to `to`.
    pub fn minutes_until(self, to: Time) -> (minutes: i64)
        requires
            self.wf(),
            to.wf(),
        ensures
            minutes == minutes_between(self, to),
    {
        let from_seconds: i64 = (self.hour as i64) * 3600 + (self.minute as i64) * 60 + (
        self.second as i64);
        let to_seconds: i64 = (to.hour as i64) * 3600 + (to.minute as i64) * 60 + (to.second as i64);
        if to_seconds >= from_seconds {
            (to_seconds - from_seconds) / 60
        } else {
            let behind: i64 = (from_seconds - to_seconds) / 60;
            0 - behind
        }
    }
}

/// The date that a printed day and month stand for, seen from `today`: the
/// day in today's year, unless that lies more than 60 days back, which puts it
/// in the next year, or more than 60 days ahead, which puts it in the last.
pub open spec fn inferred_date(today: Date, month: int, day: int) -> Option<Date> {
    if !is_date(today.year as int, month, day) {
        None
    } else {
        let ahead = day_number(today.year as int, month, day) - today.number();
        let year = if ahead < -YEAR_WINDOW {
            today.year + 1
        } else if ahead > YEAR_WINDOW {
            today.year - 1
        } else {
            today.year as int
        };
        if is_date(year, month, day) {
            Some(Date { year: year as i32, month: month as u32, day: day as u32 })
        } else {
            None
        }
    }
}

/// Puts a printed day and month into the year they belong to.
pub fn infer_date(today: Date, month: u32, day: u32) -> (r: Option<Date>)
    requires
        today.wf(),
    ensures
        r == inferred_date(today, month as int, day as int),
{
    let date = match Date::new(today.year, month, day) {
        Some(date) => date,
        None => { return None; },
    };
    let ahead = date.days_since(today);
    if ahead < -YEAR_WINDOW {
        Date::new(today.year + 1, month, day)
    } else if ahead > YEAR_WINDOW {
        Date::new(today.year - 1, month, day)
    } else {
        Some(date)
    }
}

/// The number that a component of a printed date holds.
pub open spec fn component(text: Seq<char>) -> Option<int> {
    match decimal(text) {
        Some(n) if n <= u32::MAX => Some(n as int),
        _ => None,
    }
}

/// The day and month that a printed date `D.M.` holds: a number, a dot, a
/// number, a dot, and nothing more.
pub open spec fn printed_day_month(text: Seq<char>) -> Option<(int, int)> {
    match split_once(text, "."@) {
        None => None,
        Some((day, rest)) => match split_once(rest, "."@) {
            None => None,
            Some((month, end)) => {
                if end.len() == 0 && component(day) is Some && component(month) is Some {
                    Some((component(day)->0, component(month)->0))
                } else {
                    None
                }
            },
        },
    }
}

/// The date that a printed date `D.M.` stands for, seen from `today`.
pub open spec fn date_of(text: Seq<char>, today: Date) -> Option<Date> {
    match printed_day_month(text) {
        None => None,
        Some((day, month)) => inferred_date(today, month, day),
    }
}

/// Reads one component of a printed date.
fn parse_component(text: &str) -> (r: Option<u32>)
    ensures
        match r {
            Some(n) => component(text@) == Some(n as int),
            None => component(text@) is None,
        },
{
    match parse_usize(text) {
        Ok(n) => {
            if n <= 0xFFFF_FFFF {
                Some(n as u32)
            } else {
                None
            }
        },
        Err(_) => None,
    }
}

/// Reads a printed date `D.M.` and puts it into the year it belongs to.
pub fn parse_date(text: &str, today: Date) -> (r: Option<Date>)
    requires
        today.wf(),
    ensures
        r == date_of(text@, today),
{
    let (day, rest) = match text_split_once(text, ".") {
        Some(parts) => parts,
        None => { return None; },
    };
    let (month, end) = match text_split_once(rest, ".") {
        Some(parts) => parts,
        None => { return None; },
    };
    if end.unicode_len() != 0 {
        return None;
    }
    let month = match parse_component(month) {
        Some(n) => n,
        None => { return None; },
    };
    let day = match parse_component(day) {
        Some(n) => n,
        None => { return None; },
    };
    infer_date(today, month, day)
}

} // verus!
