//! The calendar model of the model-view-update loop.

use vstd::prelude::*;

use crate::model::{today_ymd, Ymd};
use crate::navigation::month_of;

verus! {

/// Calendar state: displayed (year, month), selected date, today and the
/// first day of the week (0 Sunday, 1 Monday).
pub struct CalendarModel {
    pub display: (isize, usize),
    pub selected: Ymd,
    pub today: Ymd,
    pub week_start_day: usize,
}

impl CalendarModel {
    /// Shows the current month with today selected; weeks start on Sunday.
    pub fn new() -> (r: Self)
        ensures
            r.display == month_of(r.today),
            r.selected == r.today,
            r.week_start_day == 0,
            1 <= r.today.1 <= 12,
            1 <= r.today.2 <= 31,
    {
        Self::with_today(today_ymd())
    }

    /// Shows the month of `today` with `today` selected; weeks start on Sunday.
    pub fn with_today(today: Ymd) -> (r: Self)
        ensures
            r == (CalendarModel { display: month_of(today), selected: today, today, week_start_day: 0 }),
    {
        CalendarModel { display: (today.0, today.1), selected: today, today, week_start_day: 0 }
    }
}

} // verus!
