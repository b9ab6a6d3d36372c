//! Events of the calendar interface.

use vstd::prelude::*;

use crate::settings::AppSettings;

verus! {

/// Every event the calendar reacts to.
pub enum CalendarMessage {
    PrevMonth,
    NextMonth,
    GoToday,
    SelectDay { year: isize, month: usize, day: usize },
    WeekStartChanged(usize),
    ApplySettings(AppSettings),
}

} // verus!
