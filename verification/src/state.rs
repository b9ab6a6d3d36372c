//! The calendar state shared by the interface callbacks: displayed month,
//! selected date, today and the first day of the week.

use vstd::prelude::*;

use crate::model::Ymd;
use crate::navigation::{
    can_shift_display, clicked, month_of, nav_selected, nav_shifted, nav_today, nav_week_start,
    shift_display, shifted_display, CalendarNav,
};

verus! {

/// Calendar navigation state.
pub struct CalendarState {
    display: (isize, usize),
    selected: Ymd,
    today: Ymd,
    week_start_day: usize,
}

impl View for CalendarState {
    type V = CalendarNav;

    closed spec fn view(&self) -> CalendarNav {
        CalendarNav {
            display: self.display,
            selected: self.selected,
            today: self.today,
            week_start_day: self.week_start_day,
        }
    }
}

impl CalendarState {
    /// A state showing the month of `today`, with `today` selected.
    pub fn new(week_start_day: usize, today: Ymd) -> (r: Self)
        ensures
            r@ == (CalendarNav {
                display: month_of(today),
                selected: today,
                today,
                week_start_day,
            }),
    {
        CalendarState { display: (today.0, today.1), selected: today, today, week_start_day }
    }

    /// The displayed (year, month).
    pub fn display(&self) -> (r: (isize, usize))
        ensures
            r == self@.display,
    {
        self.display
    }

    /// The selected date.
    pub fn selected(&self) -> (r: Ymd)
        ensures
            r == self@.selected,
    {
        self.selected
    }

    /// Today's date.
    pub fn today(&self) -> (r: Ymd)
        ensures
            r == self@.today,
    {
        self.today
    }

    /// The day of the week of the first grid column (0 Sunday, 1 Monday).
    pub fn week_start_day(&self) -> (r: usize)
        ensures
            r == self@.week_start_day,
    {
        self.week_start_day
    }

    /// Sets the first day of the week; nothing else changes.
    pub fn set_week_start_day(&mut self, day: usize)
        ensures
            final(self)@ == nav_week_start(old(self)@, day),
            final(self)@.week_start_day == day,
            final(self)@.display == old(self)@.display,
            final(self)@.selected == old(self)@.selected,
            final(self)@.today == old(self)@.today,
    {
        self.week_start_day = day;
    }

    /// Shows the previous month.
    pub fn prev_month(&mut self)
        requires
            can_shift_display(old(self)@.display, -1),
        ensures
            final(self)@ == nav_shifted(old(self)@, -1),
            final(self)@.display == shifted_display(old(self)@.display, -1),
            final(self)@.selected == old(self)@.selected,
            final(self)@.today == old(self)@.today,
            final(self)@.week_start_day == old(self)@.week_start_day,
    {
        self.shift_month(-1);
    }

    /// Shows the next month.
    pub fn next_month(&mut self)
        requires
            can_shift_display(old(self)@.display, 1),
        ensures
            final(self)@ == nav_shifted(old(self)@, 1),
            final(self)@.display == shifted_display(old(self)@.display, 1),
            final(self)@.selected == old(self)@.selected,
            final(self)@.today == old(self)@.today,
            final(self)@.week_start_day == old(self)@.week_start_day,
    {
        self.shift_month(1);
    }

    /// Shows today's month and selects today.
    pub fn go_today(&mut self)
        ensures
            final(self)@ == nav_today(old(self)@),
            final(self)@.display == (old(self)@.today.0, old(self)@.today.1),
            final(self)@.selected == old(self)@.today,
            final(self)@.today == old(self)@.today,
            final(self)@.week_start_day == old(self)@.week_start_day,
    {
        self.display = (self.today.0, self.today.1);
        self.selected = self.today;
    }

    /// Selects a date; a month or day below 1 becomes 1.
    pub fn select_day(&mut self, year: isize, month: usize, day: usize)
        ensures
            final(self)@ == nav_selected(old(self)@, year, month, day),
            month >= 1 && day >= 1 ==> final(self)@.selected == (year, month, day),
            final(self)@.selected.0 == year,
            month < 1 ==> final(self)@.selected.1 == 1,
            day < 1 ==> final(self)@.selected.2 == 1,
            final(self)@.display == old(self)@.display,
            final(self)@.today == old(self)@.today,
            final(self)@.week_start_day == old(self)@.week_start_day,
    {
        self.selected = clicked(year, month, day);
    }

    fn shift_month(&mut self, offset: isize)
        requires
            can_shift_display(old(self)@.display, offset as int),
        ensures
            final(self)@ == nav_shifted(old(self)@, offset as int),
    {
        self.display = shift_display(self.display, offset);
    }
}

} // verus!
