//! A calendar view model whose weeks start on Sunday.

use vstd::prelude::*;

use crate::model::{build_month_view, can_build_month_view, grid_cell, today_ymd, MonthView, Ymd, GRID_CELLS};
use crate::navigation::{can_shift_display, clicked_date, month_of, nav_shifted, nav_today, shift_display, CalendarNav};

verus! {

/// The date selected by a click given as the interface's 32-bit integers:
/// a month or day below 1 becomes 1.
pub open spec fn clicked_date_i32(year: i32, month: i32, day: i32) -> Ymd {
    (
        year as isize,
        (if month < 1 { 1 } else { month }) as usize,
        (if day < 1 { 1 } else { day }) as usize,
    )
}

/// Displayed month, selected date and today; the first grid column is Sunday.
pub struct CalendarViewModel {
    display: (isize, usize),
    selected: Ymd,
    today: Ymd,
}

impl View for CalendarViewModel {
    type V = CalendarNav;

    closed spec fn view(&self) -> CalendarNav {
        CalendarNav {
            display: self.display,
            selected: self.selected,
            today: self.today,
            week_start_day: 0,
        }
    }
}

impl CalendarViewModel {
    /// Shows the current month with today selected.
    pub fn new() -> (r: Self)
        ensures
            r@.display == month_of(r@.today),
            r@.selected == r@.today,
            r@.week_start_day == 0,
            1 <= r@.today.1 <= 12,
            1 <= r@.today.2 <= 31,
    {
        Self::with_today(today_ymd())
    }

    /// Shows the month of `today` with `today` selected.
    pub fn with_today(today: Ymd) -> (r: Self)
        ensures
            r@ == (CalendarNav { display: month_of(today), selected: today, today, week_start_day: 0 }),
    {
        CalendarViewModel { display: (today.0, today.1), selected: today, today }
    }

    /// The grid of the displayed month, weeks starting on Sunday.
    pub fn month_view(&self) -> (r: MonthView)
        requires
            can_build_month_view(self@.display.0 as int, self@.display.1 as int),
        ensures
            r.year == self@.display.0,
            r.month == self@.display.1,
            r.days@.len() == GRID_CELLS,
            forall|i: int|
                0 <= i < GRID_CELLS ==> #[trigger] r.days@[i] == grid_cell(
                    self@.display.0 as int,
                    self@.display.1 as int,
                    self@.selected,
                    self@.today,
                    0,
                    i,
                ),
    {
        build_month_view(self.display.0, self.display.1, self.selected, self.today, 0)
    }

    /// Shows the previous month.
    pub fn prev_month(&mut self)
        requires
            can_shift_display(old(self)@.display, -1),
        ensures
            final(self)@ == nav_shifted(old(self)@, -1),
    {
        self.shift_month(-1);
    }

    /// Shows the next month.
    pub fn next_month(&mut self)
        requires
            can_shift_display(old(self)@.display, 1),
        ensures
            final(self)@ == nav_shifted(old(self)@, 1),
    {
        self.shift_month(1);
    }

    /// Shows today's month and selects today.
    pub fn go_today(&mut self)
        ensures
            final(self)@ == nav_today(old(self)@),
    {
        self.display = (self.today.0, self.today.1);
        self.selected = self.today;
    }

    /// Selects a date given as the interface's integers; a month or day
    /// below 1 becomes 1.
    pub fn select_day(&mut self, year: i32, month: i32, day: i32)
        ensures
            final(self)@ == (CalendarNav {
                selected: clicked_date_i32(year, month, day),
                ..old(self)@
            }),
            month >= 1 && day >= 1 ==> final(self)@.selected == (
                year as isize,
                month as usize,
                day as usize,
            ),
            final(self)@.selected.0 == year as isize,
            month < 1 ==> final(self)@.selected.1 == 1,
            day < 1 ==> final(self)@.selected.2 == 1,
            final(self)@.display == old(self)@.display,
            final(self)@.today == old(self)@.today,
            final(self)@.week_start_day == 0,
    {
        let m = if month < 1 { 1 } else { month };
        let d = if day < 1 { 1 } else { day };
        self.selected = (year as isize, m as usize, d as usize);
    }

    fn shift_month(&mut self, offset: isize)
        requires
            can_shift_display(old(self)@.display, offset as int),
        ensures
            final(self)@ == nav_shifted(old(self)@, offset as int),
    {
        self.display = shift_display(self.display, offset);
    }
}

/// A click given as the interface's integers selects the clicked date when
/// its month and day are at least 1; a month or day below 1 becomes 1, and
/// the year is kept. The result is the date `clicked_date` gives for the
/// same numbers.
pub proof fn lemma_clicked_date_i32(year: i32, month: i32, day: i32)
    ensures
        month >= 1 && day >= 1 ==> clicked_date_i32(year, month, day) == (
            year as isize,
            month as usize,
            day as usize,
        ),
        clicked_date_i32(year, month, day).0 == year as isize,
        month < 1 ==> clicked_date_i32(year, month, day).1 == 1,
        month >= 1 ==> clicked_date_i32(year, month, day).1 as int == month as int,
        day < 1 ==> clicked_date_i32(year, month, day).2 == 1,
        day >= 1 ==> clicked_date_i32(year, month, day).2 as int == day as int,
        month >= 0 && day >= 0 ==> clicked_date_i32(year, month, day) == clicked_date(
            year as isize,
            month as usize,
            day as usize,
        ),
{
}

} // verus!
