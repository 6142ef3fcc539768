//! The state and the rules of a date picker: a field that shows the chosen
//! date, a calendar popover, quick-select presets and a clear button, for a
//! single date or a range of dates.
//!
//! The picker holds no handle of a windowing toolkit. Every reaction takes
//! what the host observed (where the focus rests, which date the calendar
//! reported) and returns the list of [`date_picker::Effect`]s that the host
//! has to carry out, in order.

pub mod calendar;
pub mod date;
pub mod date_picker;
pub mod element;
pub mod guarantees;
pub mod layout;
pub mod link;
