//! The month calendar shown beside a date field.

use vstd::prelude::*;
use crate::dates::{day_number_of, day_of_month, month_of_day, weekday_of_day, year_of_day, Date};
use crate::text::{concat3, signed_decimal, signed_digits};

verus! {

/// Weeks a calendar page has room for.
pub const CALENDAR_WEEKS: u32 = 6;

/// Days in a week.
pub const WEEK_LENGTH: u32 = 7;

/// How a day of the calendar is shown. The kinds are tested in this
/// order; the first that applies wins.
#[derive(Debug, Clone, Copy, PartialEq, Eq, Structural)]
pub enum DayKind {
    /// The day the date field holds.
    Selected,
    /// Today.
    Today,
    Saturday,
    Sunday,
    Plain,
}

/// One cell of the calendar.
#[derive(Debug, Clone, Copy, PartialEq, Eq, Structural)]
pub enum CalendarCell {
    /// No day of the month falls here.
    Blank,
    /// A day of the month.
    Day(u32, DayKind),
}

/// What a calendar page shows: a month, and which of its days are marked.
#[derive(Debug, Clone, Copy, PartialEq, Eq, Structural)]
pub struct MonthPage {
    pub year: i32,
    /// Month of the year, from 1.
    pub month: u32,
    /// Day of the week of the first of the month, from 0 for Monday.
    pub first_weekday: u32,
    pub days_in_month: u32,
    /// The day of the month that the date field holds.
    pub selected_day: u32,
    /// Today's day of the month, if today lies in this month.
    pub today_day: Option<u32>,
}

/// The names of the months.
pub open spec fn month_name(month: u32) -> &'static str {
    if month == 1 {
        "January"
    } else if month == 2 {
        "February"
    } else if month == 3 {
        "March"
    } else if month == 4 {
        "April"
    } else if month == 5 {
        "May"
    } else if month == 6 {
        "June"
    } else if month == 7 {
        "July"
    } else if month == 8 {
        "August"
    } else if month == 9 {
        "September"
    } else if month == 10 {
        "October"
    } else if month == 11 {
        "November"
    } else {
        "December"
    }
}

/// The names of the months, shortened to three letters.
pub open spec fn month_abbreviation(month: u32) -> &'static str {
    if month == 1 {
        "Jan"
    } else if month == 2 {
        "Feb"
    } else if month == 3 {
        "Mar"
    } else if month == 4 {
        "Apr"
    } else if month == 5 {
        "May"
    } else if month == 6 {
        "Jun"
    } else if month == 7 {
        "Jul"
    } else if month == 8 {
        "Aug"
    } else if month == 9 {
        "Sep"
    } else if month == 10 {
        "Oct"
    } else if month == 11 {
        "Nov"
    } else {
        "Dec"
    }
}

/// The name of month `month`, counted from 1.
pub fn name_of_month(month: u32) -> (name: &'static str)
    ensures
        name == month_name(month),
{
    if month == 1 {
        "January"
    } else if month == 2 {
        "February"
    } else if month == 3 {
        "March"
    } else if month == 4 {
        "April"
    } else if month == 5 {
        "May"
    } else if month == 6 {
        "June"
    } else if month == 7 {
        "July"
    } else if month == 8 {
        "August"
    } else if month == 9 {
        "September"
    } else if month == 10 {
        "October"
    } else if month == 11 {
        "November"
    } else {
        "December"
    }
}

/// The three-letter name of month `month`, counted from 1.
pub fn abbreviation_of_month(month: u32) -> (name: &'static str)
    ensures
        name == month_abbreviation(month),
{
    if month == 1 {
        "Jan"
    } else if month == 2 {
        "Feb"
    } else if month == 3 {
        "Mar"
    } else if month == 4 {
        "Apr"
    } else if month == 5 {
        "May"
    } else if month == 6 {
        "Jun"
    } else if month == 7 {
        "Jul"
    } else if month == 8 {
        "Aug"
    } else if month == 9 {
        "Sep"
    } else if month == 10 {
        "Oct"
    } else if month == 11 {
        "Nov"
    } else {
        "Dec"
    }
}

/// Year and month of the month after `(year, month)`.
pub open spec fn following_month(year: int, month: int) -> (int, int) {
    if month == 12 {
        (year + 1, 1)
    } else {
        (year, month + 1)
    }
}

/// The day number of the first of the month in which a day lies.
pub open spec fn first_day_of_month(days: int) -> Option<int> {
    day_number_of(year_of_day(days), month_of_day(days), 1)
}

/// The day number of the first of the month after that in which a day lies.
pub open spec fn first_day_of_next_month(days: int) -> Option<int> {
    let next = following_month(year_of_day(days), month_of_day(days));
    day_number_of(next.0, next.1, 1)
}

/// The calendar page for the month of `date`: `None` where the calendar
/// does not reach to the first of that month or to the first of the next.
/// The length of the month is the day of the month of the day before the
/// first of the next.
pub open spec fn month_page_of(date: Date, today: Date) -> Option<MonthPage> {
    match (first_day_of_month(date.days as int), first_day_of_next_month(date.days as int)) {
        (Some(first), Some(next)) => if next - 1 < crate::dates::MIN_DAY {
            None
        } else {
            Some(
            MonthPage {
                year: year_of_day(date.days as int) as i32,
                month: month_of_day(date.days as int) as u32,
                first_weekday: weekday_of_day(first) as u32,
                days_in_month: day_of_month(next - 1) as u32,
                selected_day: day_of_month(date.days as int) as u32,
                today_day: if year_of_day(today.days as int) == year_of_day(date.days as int)
                    && month_of_day(today.days as int) == month_of_day(date.days as int) {
                    Some(day_of_month(today.days as int) as u32)
                } else {
                    None
                },
            },
        )
        },
        _ => None,
    }
}

/// Year and month of the month after month `month` of year `year`.
pub fn month_after(year: i32, month: u32) -> (next: (i32, u32))
    requires
        year < i32::MAX,
        month < u32::MAX,
    ensures
        (next.0 as int, next.1 as int) == following_month(year as int, month as int),
{
    if month == 12 {
        (year + 1, 1)
    } else {
        (year, month + 1)
    }
}

/// Today's day of the month if today lies in month `month` of year `year`.
pub fn day_if_in_month(today: (i32, u32, u32), year: i32, month: u32) -> (day: Option<u32>)
    ensures
        day == (if today.0 == year && today.1 == month {
            Some(today.2)
        } else {
            None
        }),
{
    if today.0 == year && today.1 == month {
        Some(today.2)
    } else {
        None
    }
}

/// The date a date field shows in its calendar: what its text says, or
/// today where the text names no date.
pub fn calendar_date(text: &str, today: Date) -> (date: Date)
    requires
        today.is_valid(),
    ensures
        date == (match crate::dates::parsed_date(text@) {
            Some(d) => d,
            None => today,
        }),
        date.is_valid(),
{
    match Date::parse(text) {
        Some(d) => d,
        None => today,
    }
}

impl MonthPage {
    /// A page can be laid out when the first of the month is a day of the
    /// week and the month has between one and 31 days.
    pub open spec fn wf(self) -> bool {
        self.first_weekday < WEEK_LENGTH && 1 <= self.days_in_month <= 31
    }

    /// The page for the month of `date`, with `today` marked if it lies
    /// in that month.
    pub fn of_date(date: Date, today: Date) -> (page: Option<MonthPage>)
        requires
            date.is_valid(),
            today.is_valid(),
        ensures
            page == month_page_of(date, today),
            page is Some ==> page->0.wf(),
    {
        let year = date.year();
        let month = date.month();
        let first = match Date::from_ymd(year, month, 1) {
            Some(first) => first,
            None => { return None; },
        };
        let next = month_after(year, month);
        let next_first = match Date::from_ymd(next.0, next.1, 1) {
            Some(next) => next,
            None => { return None; },
        };
        let last = match next_first.plus_days(-1) {
            Some(last) => last,
            None => { return None; },
        };
        let today_day = day_if_in_month((today.year(), today.month(), today.day()), year, month);
        Some(
            MonthPage {
                year,
                month,
                first_weekday: first.weekday_from_monday(),
                days_in_month: last.day(),
                selected_day: date.day(),
                today_day,
            },
        )
    }

    /// The day of the month that falls on day `weekday` of week `week` of
    /// the page, both counted from 0; below 1 or above the length of the
    /// month where none does.
    pub open spec fn day_at(self, week: int, weekday: int) -> int {
        week * WEEK_LENGTH + weekday - self.first_weekday + 1
    }

    /// How day `day`, a day `weekday` of the week, is shown.
    pub open spec fn kind_of(self, day: int, weekday: int) -> DayKind {
        if day == self.selected_day {
            DayKind::Selected
        } else if self.today_day == Some(day as u32) {
            DayKind::Today
        } else if weekday == 5 {
            DayKind::Saturday
        } else if weekday == 6 {
            DayKind::Sunday
        } else {
            DayKind::Plain
        }
    }

    /// The cell at day `weekday` of week `week`.
    pub open spec fn cell_at(self, week: int, weekday: int) -> CalendarCell {
        let day = self.day_at(week, weekday);
        if 1 <= day <= self.days_in_month {
            CalendarCell::Day(day as u32, self.kind_of(day, weekday))
        } else {
            CalendarCell::Blank
        }
    }

    /// A week is shown if it is the first of the page, or if days of the
    /// month are left over after it.
    pub open spec fn week_shown(self, week: int) -> bool {
        week == 0 || self.day_at(week + 1, 0) <= self.days_in_month
    }

    /// The heading of the page: the name of the month and the year.
    pub open spec fn spec_heading(self) -> Seq<char> {
        month_name(self.month)@ + " "@ + signed_digits(self.year as int)
    }

    pub fn heading(&self) -> (text: String)
        ensures
            text@ == self.spec_heading(),
    {
        let year = signed_decimal(self.year as i64);
        concat3(name_of_month(self.month), " ", year.as_str())
    }

    fn cell(&self, week: u32, weekday: u32) -> (cell: CalendarCell)
        requires
            self.wf(),
            week < CALENDAR_WEEKS,
            weekday < WEEK_LENGTH,
        ensures
            cell == self.cell_at(week as int, weekday as int),
    {
        let place: u32 = week * WEEK_LENGTH + weekday + 1;
        if place <= self.first_weekday {
            return CalendarCell::Blank;
        }
        let day: u32 = place - self.first_weekday;
        if day > self.days_in_month {
            return CalendarCell::Blank;
        }
        let kind = if day == self.selected_day {
            DayKind::Selected
        } else if self.today_day == Some(day) {
            DayKind::Today
        } else if weekday == 5 {
            DayKind::Saturday
        } else if weekday == 6 {
            DayKind::Sunday
        } else {
            DayKind::Plain
        };
        CalendarCell::Day(day, kind)
    }

    /// The weeks of the page, each with its seven cells from Monday to Sunday.
    pub fn rows(&self) -> (rows: Vec<Vec<CalendarCell>>)
        requires
            self.wf(),
        ensures
            1 <= rows@.len() <= CALENDAR_WEEKS,
            forall|week: int|
                0 <= week < CALENDAR_WEEKS ==> (week < rows@.len() <==> #[trigger] self.week_shown(
                    week,
                )),
            forall|week: int|
                0 <= week < rows@.len() ==> (#[trigger] rows@[week])@.len() == WEEK_LENGTH,
            forall|week: int, weekday: int|
                0 <= week < rows@.len() && 0 <= weekday < WEEK_LENGTH ==> rows@[week]@[weekday]
                    == #[trigger] self.cell_at(week, weekday),
    {
        let mut rows: Vec<Vec<CalendarCell>> = Vec::new();
        let mut week: u32 = 0;
        let mut open: bool = true;
        while week < CALENDAR_WEEKS
            invariant
                self.wf(),
                week <= CALENDAR_WEEKS,
                open ==> rows@.len() == week,
                rows@.len() <= week,
                week > 0 ==> rows@.len() >= 1,
                !open ==> !self.week_shown(rows@.len() as int),
                forall|w: int| 0 <= w < rows@.len() ==> #[trigger] self.week_shown(w),
                forall|w: int| 0 <= w < rows@.len() ==> (#[trigger] rows@[w])@.len() == WEEK_LENGTH,
                forall|w: int, d: int|
                    0 <= w < rows@.len() && 0 <= d < WEEK_LENGTH ==> rows@[w]@[d]
                        == #[trigger] self.cell_at(w, d),
            decreases CALENDAR_WEEKS - week,
        {
            let after: u32 = (week + 1) * WEEK_LENGTH + 1;
            let shown = week == 0 || (after > self.first_weekday && after - self.first_weekday
                <= self.days_in_month);
            if open && shown {
                let mut row: Vec<CalendarCell> = Vec::new();
                let mut weekday: u32 = 0;
                while weekday < WEEK_LENGTH
                    invariant
                        self.wf(),
                        week < CALENDAR_WEEKS,
                        weekday <= WEEK_LENGTH,
                        row@.len() == weekday,
                        forall|d: int|
                            0 <= d < weekday ==> row@[d] == #[trigger] self.cell_at(week as int, d),
                    decreases WEEK_LENGTH - weekday,
                {
                    row.push(self.cell(week, weekday));
                    weekday = weekday + 1;
                }
                rows.push(row);
            } else {
                open = false;
            }
            week = week + 1;
        }
        proof {
            assert forall|w: int| 0 <= w < CALENDAR_WEEKS implies (w < rows@.len()
                <==> #[trigger] self.week_shown(w)) by {
                if w >= rows@.len() {
                    self.lemma_weeks_end(rows@.len() as int, w);
                }
            }
        }
        rows
    }

    /// Once a week is not shown, no later week is.
    pub proof fn lemma_weeks_end(self, first_hidden: int, week: int)
        requires
            self.wf(),
            0 <= first_hidden <= week,
            !self.week_shown(first_hidden),
        ensures
            !self.week_shown(week),
    {
    }
}

} // verus!
