//! Calendar dates and the value of a picker: one date or a range of dates.

use vstd::prelude::*;
use vstd::string::*;

verus! {

/// The first year that a calendar date can have.
pub const MIN_YEAR: i32 = -262143;

/// The last year that a calendar date can have.
pub const MAX_YEAR: i32 = 262142;

/// Whether `year` is a leap year of the proleptic Gregorian calendar.
pub open spec fn is_leap_year(year: int) -> bool {
    year % 4 == 0 && (year % 100 != 0 || year % 400 == 0)
}

/// The number of days of `month` in `year`, for a month from 1 to 12.
pub open spec fn days_in_month(year: int, month: int) -> int {
    if month == 2 {
        if is_leap_year(year) {
            29
        } else {
            28
        }
    } else if month == 4 || month == 6 || month == 9 || month == 11 {
        30
    } else {
        31
    }
}

/// Whether year, month and day name a day that exists.
pub open spec fn is_calendar_date(year: int, month: int, day: int) -> bool {
    &&& MIN_YEAR <= year <= MAX_YEAR
    &&& 1 <= month <= 12
    &&& 1 <= day <= days_in_month(year, month)
}

/// Year, month and day as mathematical integers: what a [`CalendarDate`] stands for.
pub struct Ymd {
    pub year: int,
    pub month: int,
    pub day: int,
}

impl Ymd {
    /// Whether this day exists.
    pub open spec fn exists_in_calendar(self) -> bool {
        is_calendar_date(self.year, self.month, self.day)
    }

    /// Whether this day comes strictly before `other`.
    pub open spec fn before(self, other: Ymd) -> bool {
        ||| self.year < other.year
        ||| self.year == other.year && self.month < other.month
        ||| self.year == other.year && self.month == other.month && self.day < other.day
    }
}

/// A day of the proleptic Gregorian calendar, without a time of day.
///
/// Every value names a day that exists: the only way to make one is
/// [`CalendarDate::from_ymd`].
#[derive(Clone, Copy, Debug, PartialEq, Eq)]
pub struct CalendarDate {
    year: i32,
    month: u32,
    day: u32,
}

impl View for CalendarDate {
    type V = Ymd;

    closed spec fn view(&self) -> Ymd {
        Ymd { year: self.year as int, month: self.month as int, day: self.day as int }
    }
}

/// Whether `year` is a leap year.
pub fn leap_year(year: i32) -> (leap: bool)
    ensures
        leap == is_leap_year(year as int),
{
    // Shifted by a multiple of 400, so that the remainders are taken of a
    // number that is not negative.
    let shifted: i64 = year as i64 + 2_147_484_000;
    shifted % 4 == 0 && (shifted % 100 != 0 || shifted % 400 == 0)
}

/// The number of days of `month` in `year`, for a month from 1 to 12.
pub fn month_length(year: i32, month: u32) -> (days: u32)
    ensures
        days == days_in_month(year as int, month as int),
{
    if month == 2 {
        if leap_year(year) {
            29
        } else {
            28
        }
    } else if month == 4 || month == 6 || month == 9 || month == 11 {
        30
    } else {
        31
    }
}

impl CalendarDate {
    #[verifier::type_invariant]
    spec fn valid(self) -> bool {
        is_calendar_date(self.year as int, self.month as int, self.day as int)
    }

    /// The date of the given year, month and day, or `None` where no such day
    /// exists.
    pub fn from_ymd(year: i32, month: u32, day: u32) -> (out: Option<CalendarDate>)
        ensures
            out is Some <==> is_calendar_date(year as int, month as int, day as int),
            out matches Some(date) ==> date@ == (Ymd {
                year: year as int,
                month: month as int,
                day: day as int,
            }),
    {
        if year < MIN_YEAR || year > MAX_YEAR || month < 1 || month > 12 || day < 1 {
            return None;
        }
        if day > month_length(year, month) {
            return None;
        }
        Some(CalendarDate { year, month, day })
    }

    /// The year.
    pub fn year(&self) -> (year: i32)
        ensures
            year == self@.year,
            self@.exists_in_calendar(),
    {
        proof {
            use_type_invariant(self);
        }
        self.year
    }

    /// The month, from 1 to 12.
    pub fn month(&self) -> (month: u32)
        ensures
            month == self@.month,
            self@.exists_in_calendar(),
    {
        proof {
            use_type_invariant(self);
        }
        self.month
    }

    /// The day of the month, from 1.
    pub fn day(&self) -> (day: u32)
        ensures
            day == self@.day,
            self@.exists_in_calendar(),
    {
        proof {
            use_type_invariant(self);
        }
        self.day
    }

    /// Whether this day comes strictly before `other`.
    pub fn is_before(&self, other: &CalendarDate) -> (before: bool)
        ensures
            before == self@.before(other@),
    {
        self.year < other.year || (self.year == other.year && (self.month < other.month || (
        self.month == other.month && self.day < other.day)))
    }
}

/// The view of a text that may be absent.
pub open spec fn text_of(text: Option<String>) -> Option<Seq<char>> {
    match text {
        Some(s) => Some(s@),
        None => None,
    }
}

/// What chrono writes for the day `year`-`month`-`day` under the strftime
/// pattern `pattern`; `None` where chrono has no such day or reports a
/// formatting error (a specifier it does not know, or one that asks for a time
/// of day or a time zone, which a date does not have).
pub uninterp spec fn strftime(year: int, month: int, day: int, pattern: Seq<char>) -> Option<
    Seq<char>,
>;

/// Calls `chrono::NaiveDate::from_ymd_opt`, `NaiveDate::format` and
/// `DelayedFormat::write_to`.
///
/// Trusted: the text that chrono writes depends on the day and the pattern
/// alone (chrono formats a `NaiveDate` with its built-in English names), so it
/// is given the name [`strftime`]. Nothing else is claimed of it. `write_to`
/// returns an error where `to_string` would panic; the text written before an
/// error is dropped.
#[verifier::external_body]
fn render_date(year: i32, month: u32, day: u32, pattern: &str) -> (out: Option<String>)
    ensures
        text_of(out) == strftime(year as int, month as int, day as int, pattern@),
{
    let date = chrono::NaiveDate::from_ymd_opt(year, month, day)?;
    let mut text = String::new();
    date.format(pattern).write_to(&mut text).ok()?;
    Some(text)
}

/// What stands between the two days of a formatted range.
pub open spec fn range_separator() -> Seq<char> {
    seq![' ', '-', ' ']
}

/// The text of a range whose two ends were formatted to `start` and `end`:
/// both texts with [`range_separator`] between them, and nothing where either
/// is absent.
pub open spec fn joined_range(start: Option<Seq<char>>, end: Option<Seq<char>>) -> Option<
    Seq<char>,
> {
    match (start, end) {
        (Some(s), Some(e)) => Some(s + range_separator() + e),
        _ => None,
    }
}

/// Joins the formatted ends of a range.
pub fn join_range(start: Option<String>, end: Option<String>) -> (out: Option<String>)
    ensures
        text_of(out) == joined_range(text_of(start), text_of(end)),
{
    match (start, end) {
        (Some(s), Some(e)) => {
            proof {
                reveal_strlit(" - ");
                assert(" - "@ =~= range_separator());
            }
            let mut text = s;
            text.append(" - ");
            text.append(e.as_str());
            Some(text)
        },
        _ => None,
    }
}

/// The value of a picker: one date, or a range of dates from a start to an
/// end. Each date may be absent. A range is kept as it is given: its end may
/// come before its start.
#[derive(Clone, Copy, Debug, PartialEq, Eq)]
pub enum Date {
    Single(Option<CalendarDate>),
    Range(Option<CalendarDate>, Option<CalendarDate>),
}

impl Date {
    /// Whether any date is present.
    pub open spec fn is_set(self) -> bool {
        match self {
            Date::Single(date) => date is Some,
            Date::Range(start, end) => start is Some || end is Some,
        }
    }

    /// The empty value of the same shape: a single date stays a single date,
    /// a range stays a range.
    pub open spec fn cleared(self) -> Date {
        match self {
            Date::Single(_) => Date::Single(None),
            Date::Range(_, _) => Date::Range(None, None),
        }
    }

    /// The text that shows this value under the strftime pattern `pattern`.
    ///
    /// A single date is shown as chrono writes it. A range is shown only when
    /// both of its ends are present, as the two ends with
    /// [`range_separator`] between them. Every other value has no text.
    pub open spec fn formatted(self, pattern: Seq<char>) -> Option<Seq<char>> {
        match self {
            Date::Single(Some(date)) => strftime(date@.year, date@.month, date@.day, pattern),
            Date::Single(None) => None,
            Date::Range(Some(start), Some(end)) => joined_range(
                strftime(start@.year, start@.month, start@.day, pattern),
                strftime(end@.year, end@.month, end@.day, pattern),
            ),
            Date::Range(_, _) => None,
        }
    }

    /// Whether any date is present.
    pub fn is_some(&self) -> (set: bool)
        ensures
            set == self.is_set(),
    {
        match self {
            Date::Single(date) => date.is_some(),
            Date::Range(start, end) => start.is_some() || end.is_some(),
        }
    }

    /// The empty value of the same shape.
    pub fn clear(&self) -> (out: Date)
        ensures
            out == self.cleared(),
    {
        match self {
            Date::Single(_) => Date::Single(None),
            Date::Range(_, _) => Date::Range(None, None),
        }
    }

    /// The text that shows this value under the strftime pattern `format`, or
    /// `None` where there is nothing to show: no date, half a range, or a
    /// pattern that chrono cannot write for a date.
    pub fn format(&self, format: &str) -> (out: Option<String>)
        ensures
            text_of(out) == self.formatted(format@),
    {
        match self {
            Date::Single(Some(date)) => render_date(date.year, date.month, date.day, format),
            Date::Single(None) => None,
            Date::Range(Some(start), Some(end)) => {
                let first = render_date(start.year, start.month, start.day, format);
                let second = render_date(end.year, end.month, end.day, format);
                join_range(first, second)
            },
            Date::Range(_, _) => None,
        }
    }
}

} // verus!
