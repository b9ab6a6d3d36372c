//! Calendar state of the application, with the dates that have todos.

use vstd::prelude::*;

use crate::model::{today_ymd, Ymd};
use crate::navigation::{
    can_shift_display, clicked, clicked_date, month_of, shift_display, shifted_display,
};
use crate::settings::AppSettings;

verus! {

/// The date keys of a list, as a set.
pub open spec fn key_set(dates: Seq<String>) -> Set<Seq<char>> {
    Set::new(|k: Seq<char>| exists|i: int| 0 <= i < dates.len() && #[trigger] dates[i]@ == k)
}

/// No key occurs twice.
pub open spec fn distinct_keys(dates: Seq<String>) -> bool {
    forall|i: int, j: int| 0 <= i < j < dates.len() ==> #[trigger] dates[i]@ != #[trigger] dates[j]@
}

/// Calendar state: displayed (year, month), selected date, today, first
/// day of the week (0 Sunday, 1 Monday) and the keys ("YYYY-MM-DD") of the
/// dates that have todos.
pub struct CalendarModel {
    pub display: (isize, usize),
    pub selected: Ymd,
    pub today: Ymd,
    pub week_start_day: usize,
    pub todo_dates: Vec<String>,
}

impl CalendarModel {
    /// The todo dates form a set: no key occurs twice.
    pub open spec fn wf(&self) -> bool {
        distinct_keys(self.todo_dates@)
    }

    /// Shows the current month with today selected; weeks start on Sunday
    /// and no date has todos.
    pub fn new() -> (r: Self)
        ensures
            r.display == month_of(r.today),
            r.selected == r.today,
            r.week_start_day == 0,
            r.todo_dates@.len() == 0,
            r.wf(),
            1 <= r.today.1 <= 12,
            1 <= r.today.2 <= 31,
    {
        Self::with_today(today_ymd())
    }

    /// Shows the month of `today` with `today` selected; weeks start on
    /// Sunday and no date has todos.
    pub fn with_today(today: Ymd) -> (r: Self)
        ensures
            r.display == month_of(today),
            r.selected == today,
            r.today == today,
            r.week_start_day == 0,
            r.todo_dates@.len() == 0,
            r.wf(),
    {
        CalendarModel {
            display: (today.0, today.1),
            selected: today,
            today,
            week_start_day: 0,
            todo_dates: Vec::new(),
        }
    }

    /// Moves the displayed month by `offset` months (back if negative).
    pub fn shift_month(&mut self, offset: isize)
        requires
            can_shift_display(old(self).display, offset as int),
        ensures
            final(self).display == shifted_display(old(self).display, offset as int),
            final(self).selected == old(self).selected,
            final(self).today == old(self).today,
            final(self).week_start_day == old(self).week_start_day,
            final(self).todo_dates == old(self).todo_dates,
    {
        self.display = shift_display(self.display, offset);
    }

    /// Shows today's month and selects today.
    pub fn go_today(&mut self)
        ensures
            final(self).display == month_of(old(self).today),
            final(self).selected == old(self).today,
            final(self).today == old(self).today,
            final(self).week_start_day == old(self).week_start_day,
            final(self).todo_dates == old(self).todo_dates,
    {
        self.display = (self.today.0, self.today.1);
        self.selected = self.today;
    }

    /// Selects a date; a month or day below 1 becomes 1.
    pub fn select_day(&mut self, year: isize, month: usize, day: usize)
        ensures
            final(self).selected == clicked_date(year, month, day),
            final(self).display == old(self).display,
            final(self).today == old(self).today,
            final(self).week_start_day == old(self).week_start_day,
            final(self).todo_dates == old(self).todo_dates,
    {
        self.selected = clicked(year, month, day);
    }

    /// Takes the first day of the week from the settings.
    pub fn apply_settings(&mut self, settings: AppSettings)
        ensures
            final(self).week_start_day == settings.week_start_day as usize,
            final(self).display == old(self).display,
            final(self).selected == old(self).selected,
            final(self).today == old(self).today,
            final(self).todo_dates == old(self).todo_dates,
    {
        self.week_start_day = settings.week_start_day as usize;
    }

    /// Replaces the dates that have todos, a set of keys.
    pub fn set_todo_dates(&mut self, dates: Vec<String>)
        requires
            distinct_keys(dates@),
        ensures
            final(self).wf(),
            final(self).todo_dates == dates,
            final(self).display == old(self).display,
            final(self).selected == old(self).selected,
            final(self).today == old(self).today,
            final(self).week_start_day == old(self).week_start_day,
    {
        self.todo_dates = dates;
    }
}

/// Whether no key of `dates` occurs twice.
pub fn keys_are_distinct(dates: &Vec<String>) -> (r: bool)
    ensures
        r == distinct_keys(dates@),
{
    let mut j: usize = 0;
    while j < dates.len()
        invariant
            j <= dates@.len(),
            forall|a: int, b: int| 0 <= a < b < j ==> #[trigger] dates@[a]@ != #[trigger] dates@[b]@,
        decreases dates@.len() - j,
    {
        let mut i: usize = 0;
        while i < j
            invariant
                i <= j < dates@.len(),
                forall|a: int, b: int| 0 <= a < b < j ==> #[trigger] dates@[a]@ != #[trigger] dates@[b]@,
                forall|a: int| 0 <= a < i ==> #[trigger] dates@[a]@ != dates@[j as int]@,
            decreases j - i,
        {
            if dates[i] == dates[j] {
                assert(dates@[i as int]@ == dates@[j as int]@);
                return false;
            }
            i = i + 1;
        }
        j = j + 1;
    }
    true
}

/// Whether `key` is one of `dates`.
pub fn contains_key(dates: &Vec<String>, key: &String) -> (r: bool)
    ensures
        r == key_set(dates@).contains(key@),
{
    let mut i: usize = 0;
    while i < dates.len()
        invariant
            i <= dates@.len(),
            forall|j: int| 0 <= j < i ==> #[trigger] dates@[j]@ != key@,
        decreases dates@.len() - i,
    {
        if dates[i] == *key {
            assert(dates@[i as int]@ == key@);
            return true;
        }
        i = i + 1;
    }
    assert(!key_set(dates@).contains(key@)) by {
        if key_set(dates@).contains(key@) {
            let j = choose|j: int| 0 <= j < dates@.len() && #[trigger] dates@[j]@ == key@;
            assert(dates@[j]@ != key@);
        }
    }
    false
}

} // verus!
