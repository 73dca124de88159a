//! Calendar dates as day numbers.
//!
//! A [`Date`] counts days in the proleptic Gregorian calendar, with
//! January 1 of year 1 as day 1. All arithmetic of the library is done on
//! these numbers.

use vstd::prelude::*;

verus! {

/// Day number of the earliest date the calendar can name (January 1, 262144 BCE).
pub const MIN_DAY: i32 = -95_746_129;

/// Day number of the latest date the calendar can name (December 31, 262142 CE).
pub const MAX_DAY: i32 = 95_745_399;

/// A calendar date, held as its day number.
#[derive(Clone, Copy, Debug, PartialEq, Eq, Structural)]
pub struct Date {
    pub days: i32,
}

impl Date {
    /// Whether the calendar can name this day.
    pub open spec fn is_valid(self) -> bool {
        MIN_DAY <= self.days <= MAX_DAY
    }

    /// Days from `earlier` to `self`; negative when `self` comes first.
    pub open spec fn spec_days_since(self, earlier: Date) -> int {
        self.days - earlier.days
    }

    /// The date `n` days after `self`, where the day number fits.
    pub open spec fn spec_plus_days(self, n: int) -> Option<Date> {
        if MIN_DAY <= self.days + n <= MAX_DAY {
            Some(Date { days: (self.days + n) as i32 })
        } else {
            None
        }
    }

    pub fn new(days: i32) -> (d: Date)
        ensures
            d.days == days,
    {
        Date { days }
    }

    pub fn in_range(&self) -> (b: bool)
        ensures
            b == self.is_valid(),
    {
        MIN_DAY <= self.days && self.days <= MAX_DAY
    }

    pub fn days_since(&self, earlier: Date) -> (n: i64)
        ensures
            n == self.spec_days_since(earlier),
    {
        self.days as i64 - earlier.days as i64
    }

    /// Moves `n` days forward (back for negative `n`); `None` when the
    /// result would leave the calendar.
    pub fn plus_days(&self, n: i64) -> (r: Option<Date>)
        ensures
            r == self.spec_plus_days(n as int),
    {
        let target: i128 = self.days as i128 + n as i128;
        if MIN_DAY as i128 <= target && target <= MAX_DAY as i128 {
            Some(Date { days: target as i32 })
        } else {
            None
        }
    }

    pub fn is_before(&self, other: Date) -> (b: bool)
        ensures
            b == (self.days < other.days),
    {
        self.days < other.days
    }
}

/// The day number that a text in the form `YYYY-MM-DD` names, or `None`
/// where the text names no date of the calendar.
pub uninterp spec fn parsed_day(text: Seq<char>) -> Option<int>;

/// The text, in the form `YYYY-MM-DD`, that names the day with a given number.
pub uninterp spec fn formatted_day(days: int) -> Seq<char>;

/// The date a text names, as `parsed_day` has it.
pub open spec fn parsed_date(text: Seq<char>) -> Option<Date> {
    match parsed_day(text) {
        Some(days) => Some(Date { days: days as i32 }),
        None => None,
    }
}

/// Reads a date with `chrono::NaiveDate::parse_from_str` and the format
/// `%Y-%m-%d`, and takes its day number with `num_days_from_ce`. The
/// contract names the result and says that a date that was read lies
/// within the calendar.
#[verifier::external_body]
pub(crate) fn parse_ymd(text: &str) -> (date: Option<Date>)
    ensures
        date == parsed_date(text@),
        date is Some ==> date->0.is_valid() && parsed_day(text@) == Some(date->0.days as int),
{
    match chrono::NaiveDate::parse_from_str(text, "%Y-%m-%d") {
        Ok(date) => Some(Date { days: chrono::Datelike::num_days_from_ce(&date) }),
        Err(_) => None,
    }
}

/// Writes a date with `chrono::NaiveDate::format` and the format
/// `%Y-%m-%d`, from the date that `from_num_days_from_ce_opt` makes of the
/// day number. The contract names the result.
#[verifier::external_body]
pub(crate) fn format_ymd(date: Date) -> (text: String)
    requires
        date.is_valid(),
    ensures
        text@ == formatted_day(date.days as int),
{
    chrono::NaiveDate::from_num_days_from_ce_opt(date.days).unwrap().format("%Y-%m-%d").to_string()
}

impl Date {
    /// The date that `text` names in the form `YYYY-MM-DD`, if it names one.
    pub fn parse(text: &str) -> (date: Option<Date>)
        ensures
            date == parsed_date(text@),
            date is Some ==> date->0.is_valid(),
    {
        parse_ymd(text)
    }

    /// The date written in the form `YYYY-MM-DD`; `None` for a day outside
    /// the calendar.
    pub fn format(&self) -> (text: Option<String>)
        ensures
            text is Some <==> self.is_valid(),
            text is Some ==> text->0@ == formatted_day(self.days as int),
    {
        if self.in_range() {
            Some(format_ymd(*self))
        } else {
            None
        }
    }
}

/// Day number of January 1, 2000. Dates before it are taken for unset.
pub const DAY_2000: i32 = 730_120;

/// Earliest and latest year of the calendar.
pub const MIN_YEAR: i32 = -262_143;

pub const MAX_YEAR: i32 = 262_142;

/// The year in which the day with a given number lies.
pub uninterp spec fn year_of_day(days: int) -> int;

/// The month, from 1 to 12, in which the day with a given number lies.
pub uninterp spec fn month_of_day(days: int) -> int;

/// The day of the month, from 1, that the day with a given number is.
pub uninterp spec fn day_of_month(days: int) -> int;

/// The day of the week, from 0 for Monday to 6 for Sunday, that the day
/// with a given number is: day 1 is a Monday, and the days of the week
/// follow each other without a gap.
pub open spec fn weekday_of_day(days: int) -> int {
    (days - 1) % 7
}

/// The number of the day that is day `day` of month `month` of year
/// `year`, where there is such a day in the calendar.
pub uninterp spec fn day_number_of(year: int, month: int, day: int) -> Option<int>;

/// Calls `chrono::Datelike::year` on the date with this day number. The
/// contract names the result and bounds it by the years of the calendar.
#[verifier::external_body]
fn civil_year(date: Date) -> (year: i32)
    requires
        date.is_valid(),
    ensures
        year == year_of_day(date.days as int),
        MIN_YEAR <= year <= MAX_YEAR,
{
    chrono::Datelike::year(&chrono::NaiveDate::from_num_days_from_ce_opt(date.days).unwrap())
}

/// Calls `chrono::Datelike::month` on the date with this day number. The
/// contract names the result and gives its range, 1 to 12.
#[verifier::external_body]
fn civil_month(date: Date) -> (month: u32)
    requires
        date.is_valid(),
    ensures
        month == month_of_day(date.days as int),
        1 <= month <= 12,
{
    chrono::Datelike::month(&chrono::NaiveDate::from_num_days_from_ce_opt(date.days).unwrap())
}

/// Calls `chrono::Datelike::day` on the date with this day number. The
/// contract names the result and gives its range, 1 to 31.
#[verifier::external_body]
fn civil_day(date: Date) -> (day: u32)
    requires
        date.is_valid(),
    ensures
        day == day_of_month(date.days as int),
        1 <= day <= 31,
{
    chrono::Datelike::day(&chrono::NaiveDate::from_num_days_from_ce_opt(date.days).unwrap())
}

/// Makes a date with `chrono::NaiveDate::from_ymd_opt` and takes its day
/// number. The contract names the result and says that a date that was
/// made lies within the calendar.
#[verifier::external_body]
fn civil_date(year: i32, month: u32, day: u32) -> (date: Option<Date>)
    ensures
        match day_number_of(year as int, month as int, day as int) {
            Some(days) => date == Some(Date { days: days as i32 }) && MIN_DAY <= days <= MAX_DAY,
            None => date is None,
        },
{
    match chrono::NaiveDate::from_ymd_opt(year, month, day) {
        Some(date) => Some(Date { days: chrono::Datelike::num_days_from_ce(&date) }),
        None => None,
    }
}

impl Date {
    /// The date of day `day` of month `month` of year `year`, if there is one.
    pub open spec fn spec_from_ymd(year: int, month: int, day: int) -> Option<Date> {
        match day_number_of(year, month, day) {
            Some(days) => Some(Date { days: days as i32 }),
            None => None,
        }
    }

    pub fn from_ymd(year: i32, month: u32, day: u32) -> (date: Option<Date>)
        ensures
            date == Self::spec_from_ymd(year as int, month as int, day as int),
            date is Some ==> date->0.is_valid() && day_number_of(
                year as int,
                month as int,
                day as int,
            ) == Some(date->0.days as int),
    {
        civil_date(year, month, day)
    }

    /// The year of the date.
    pub fn year(&self) -> (year: i32)
        requires
            self.is_valid(),
        ensures
            year == year_of_day(self.days as int),
            MIN_YEAR <= year <= MAX_YEAR,
    {
        civil_year(*self)
    }

    /// The month of the date, from 1 to 12.
    pub fn month(&self) -> (month: u32)
        requires
            self.is_valid(),
        ensures
            month == month_of_day(self.days as int),
            1 <= month <= 12,
    {
        civil_month(*self)
    }

    /// The day of the month, from 1.
    pub fn day(&self) -> (day: u32)
        requires
            self.is_valid(),
        ensures
            day == day_of_month(self.days as int),
            1 <= day <= 31,
    {
        civil_day(*self)
    }

    /// The day of the week, from 0 for Monday to 6 for Sunday.
    pub fn weekday_from_monday(&self) -> (weekday: u32)
        ensures
            weekday == weekday_of_day(self.days as int),
            weekday <= 6,
    {
        // Seven times this many weeks lie before every day number, so the
        // remainder is taken of a number that is not negative.
        let shifted: i64 = self.days as i64 - 1 + 7 * 306_783_379;
        proof {
            vstd::arithmetic::div_mod::lemma_mod_multiples_vanish(
                306_783_379,
                self.days - 1,
                7,
            );
        }
        (shifted % 7) as u32
    }

    /// Whether the date lies before the year 2000; such a date is taken
    /// for one that was never set.
    pub fn is_unset(&self) -> (b: bool)
        ensures
            b == (self.days < DAY_2000),
    {
        self.days < DAY_2000
    }
}

} // verus!
