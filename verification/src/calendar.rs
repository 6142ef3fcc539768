//! The calendar that a picker drives, as far as the picker deals with it: what
//! the picker sets on it, and the one event that it sends back.

use vstd::prelude::*;

use crate::date::{CalendarDate, Date, Ymd};
use crate::element::Size;

verus! {

/// A predicate over calendar dates: the dates that cannot be selected.
#[derive(Clone, Copy, Debug, PartialEq, Eq)]
pub enum Matcher {
    /// Every day before the given one.
    Before(CalendarDate),
    /// Every day after the given one.
    After(CalendarDate),
    /// Every day from the first to the second, both included.
    Between(CalendarDate, CalendarDate),
}

impl Matcher {
    /// Whether the predicate holds of `day`.
    pub open spec fn matches(self, day: Ymd) -> bool {
        match self {
            Matcher::Before(limit) => day.before(limit@),
            Matcher::After(limit) => limit@.before(day),
            Matcher::Between(from, to) => !day.before(from@) && !to@.before(day),
        }
    }

    /// Whether the predicate holds of `date`.
    pub fn is_match(&self, date: &CalendarDate) -> (matched: bool)
        ensures
            matched == self.matches(date@),
    {
        match self {
            Matcher::Before(limit) => date.is_before(limit),
            Matcher::After(limit) => limit.is_before(date),
            Matcher::Between(from, to) => !date.is_before(from) && !to.is_before(date),
        }
    }
}

/// What a picker has set on its calendar.
#[derive(Clone, Copy, Debug, PartialEq, Eq)]
pub struct Calendar {
    /// The value that the calendar displays.
    pub date: Date,
    /// The dates that the calendar offers but does not let the user select.
    pub disabled: Option<Matcher>,
    /// The size of the calendar.
    pub size: Size,
    /// The number of months that the calendar shows side by side.
    pub number_of_months: usize,
}

impl Calendar {
    /// A calendar that displays no date, disables none, and shows one month
    /// at medium size.
    pub fn new() -> (out: Calendar)
        ensures
            out == (Calendar {
                date: Date::Single(None),
                disabled: None,
                size: Size::Medium,
                number_of_months: 1,
            }),
    {
        Calendar { date: Date::Single(None), disabled: None, size: Size::Medium, number_of_months: 1 }
    }

    /// Displays `date`.
    pub fn set_date(&mut self, date: Date)
        ensures
            *final(self) == (Calendar { date, ..*old(self) }),
    {
        self.date = date;
    }

    /// Disables the dates of which `disabled` holds.
    pub fn set_disabled(&mut self, disabled: Matcher)
        ensures
            *final(self) == (Calendar { disabled: Some(disabled), ..*old(self) }),
    {
        self.disabled = Some(disabled);
    }

    /// Sets the size.
    pub fn set_size(&mut self, size: Size)
        ensures
            *final(self) == (Calendar { size, ..*old(self) }),
    {
        self.size = size;
    }

    /// Sets the number of months shown side by side.
    pub fn set_number_of_months(&mut self, number_of_months: usize)
        ensures
            *final(self) == (Calendar { number_of_months, ..*old(self) }),
    {
        self.number_of_months = number_of_months;
    }

    /// Whether the user cannot select `date`.
    pub fn is_disabled(&self, date: &CalendarDate) -> (disabled: bool)
        ensures
            disabled == (self.disabled matches Some(matcher) && matcher.matches(date@)),
    {
        match &self.disabled {
            Some(matcher) => matcher.is_match(date),
            None => false,
        }
    }
}

/// What a calendar reports to its picker.
#[derive(Clone, Copy, Debug, PartialEq, Eq)]
pub enum CalendarEvent {
    /// The user has completed a selection.
    Selected(Date),
}

impl CalendarEvent {
    /// The value that the user has selected.
    pub open spec fn selected(self) -> Date {
        match self {
            CalendarEvent::Selected(date) => date,
        }
    }
}

} // verus!
