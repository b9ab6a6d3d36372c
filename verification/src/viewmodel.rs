//! The calendar view model: navigation state built from the settings, and
//! the grid and column titles it shows.

use vstd::prelude::*;

use crate::model::{
    can_build_month_view, get_weekday_names, grid_cell, today_ymd, try_build_month_view,
    weekday_name, MonthView, Ymd, GRID_CELLS,
};
use crate::navigation::{
    can_shift_display, clicked, month_of, nav_selected, nav_shifted, nav_today, nav_week_start,
    shift_display, shifted_display, CalendarNav,
};
use crate::settings::AppSettings;
use crate::solar::day_of_week;

verus! {

/// Displayed month, selected date, today and the first day of the week.
pub struct CalendarViewModel {
    display: (isize, usize),
    selected: Ymd,
    today: Ymd,
    week_start_day: usize,
}

impl View for CalendarViewModel {
    type V = CalendarNav;

    closed spec fn view(&self) -> CalendarNav {
        CalendarNav {
            display: self.display,
            selected: self.selected,
            today: self.today,
            week_start_day: self.week_start_day,
        }
    }
}

impl CalendarViewModel {
    /// Shows the current month with today selected, weeks starting on the
    /// day the settings give.
    pub fn from_settings(settings: &AppSettings) -> (r: Self)
        ensures
            r@.display == month_of(r@.today),
            r@.selected == r@.today,
            r@.week_start_day == settings.week_start_day as usize,
            1 <= r@.today.1 <= 12,
            1 <= r@.today.2 <= 31,
    {
        Self::from_settings_on(settings, today_ymd())
    }

    /// Shows the month of `today` with `today` selected, weeks starting on
    /// the day the settings give.
    pub fn from_settings_on(settings: &AppSettings, today: Ymd) -> (r: Self)
        ensures
            r@ == (CalendarNav {
                display: month_of(today),
                selected: today,
                today,
                week_start_day: settings.week_start_day as usize,
            }),
    {
        let start_day = settings.week_start_day as usize;
        CalendarViewModel {
            display: (today.0, today.1),
            selected: today,
            today,
            week_start_day: start_day,
        }
    }

    /// The displayed (year, month).
    pub fn display(&self) -> (r: (isize, usize))
        ensures
            r == self@.display,
    {
        self.display
    }

    /// The first day of the week.
    pub fn week_start_day(&self) -> (r: usize)
        ensures
            r == self@.week_start_day,
    {
        self.week_start_day
    }

    /// Shows the previous month.
    pub fn prev_month(&mut self)
        requires
            can_shift_display(old(self)@.display, -1),
        ensures
            final(self)@ == nav_shifted(old(self)@, -1),
            final(self)@.display == shifted_display(old(self)@.display, -1),
            final(self)@.selected == old(self)@.selected,
            final(self)@.today == old(self)@.today,
            final(self)@.week_start_day == old(self)@.week_start_day,
    {
        self.shift_month(-1);
    }

    /// Shows the next month.
    pub fn next_month(&mut self)
        requires
            can_shift_display(old(self)@.display, 1),
        ensures
            final(self)@ == nav_shifted(old(self)@, 1),
            final(self)@.display == shifted_display(old(self)@.display, 1),
            final(self)@.selected == old(self)@.selected,
            final(self)@.today == old(self)@.today,
            final(self)@.week_start_day == old(self)@.week_start_day,
    {
        self.shift_month(1);
    }

    /// Shows today's month and selects today.
    pub fn go_today(&mut self)
        ensures
            final(self)@ == nav_today(old(self)@),
            final(self)@.display == (old(self)@.today.0, old(self)@.today.1),
            final(self)@.selected == old(self)@.today,
            final(self)@.today == old(self)@.today,
            final(self)@.week_start_day == old(self)@.week_start_day,
    {
        self.display = (self.today.0, self.today.1);
        self.selected = self.today;
    }

    /// Selects a date; a month or day below 1 becomes 1.
    pub fn select_day(&mut self, year: isize, month: usize, day: usize)
        ensures
            final(self)@ == nav_selected(old(self)@, year, month, day),
            month >= 1 && day >= 1 ==> final(self)@.selected == (year, month, day),
            final(self)@.selected.0 == year,
            month < 1 ==> final(self)@.selected.1 == 1,
            day < 1 ==> final(self)@.selected.2 == 1,
            final(self)@.display == old(self)@.display,
            final(self)@.today == old(self)@.today,
            final(self)@.week_start_day == old(self)@.week_start_day,
    {
        self.selected = clicked(year, month, day);
    }

    /// Sets the first day of the week.
    pub fn set_week_start_day(&mut self, day: usize)
        ensures
            final(self)@ == nav_week_start(old(self)@, day),
            final(self)@.week_start_day == day,
            final(self)@.display == old(self)@.display,
            final(self)@.selected == old(self)@.selected,
            final(self)@.today == old(self)@.today,
    {
        self.week_start_day = day;
    }

    fn shift_month(&mut self, offset: isize)
        requires
            can_shift_display(old(self)@.display, offset as int),
        ensures
            final(self)@ == nav_shifted(old(self)@, offset as int),
    {
        self.display = shift_display(self.display, offset);
    }

    /// The grid the interface draws for this state; `None` when the first
    /// day of the week cannot be subtracted from the weekday of the 1st plus
    /// seven (only a first day above 7 can cause it).
    pub fn build_month_vm(&self) -> (r: Option<MonthView>)
        requires
            can_build_month_view(self@.display.0 as int, self@.display.1 as int),
        ensures
            (self@.week_start_day <= day_of_week(
                self@.display.0 as int,
                self@.display.1 as int,
                1,
            ) + 7) <==> r is Some,
            r matches Some(v) ==> {
                &&& v.year == self@.display.0
                &&& v.month == self@.display.1
                &&& v.days@.len() == GRID_CELLS
                &&& forall|i: int|
                    0 <= i < GRID_CELLS ==> #[trigger] v.days@[i] == grid_cell(
                        self@.display.0 as int,
                        self@.display.1 as int,
                        self@.selected,
                        self@.today,
                        self@.week_start_day as int,
                        i,
                    )
            },
    {
        try_build_month_view(
            self.display.0,
            self.display.1,
            self.selected,
            self.today,
            self.week_start_day,
        )
    }

    /// The seven column titles for this state's first day of the week.
    pub fn weekdays(&self) -> (r: Vec<&'static str>)
        requires
            self@.week_start_day + 6 <= usize::MAX,
        ensures
            r@.len() == 7,
            forall|i: int|
                0 <= i < 7 ==> #[trigger] r@[i]@ == weekday_name(
                    (self@.week_start_day + i) % 7,
                ),
    {
        get_weekday_names(self.week_start_day)
    }
}

} // verus!
