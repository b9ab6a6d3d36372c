//! The calendar as the interface draws it, and the reaction to a click on
//! a day.

use vstd::prelude::*;

use crate::date_key::{date_key, date_key_i32, date_key_text, lemma_date_key_identifies_date};
use crate::model::{
    can_build_month_view, cell_date, grid_cell, lemma_grid_cell_flags, lemma_grid_layout,
    try_build_month_view, DayCell, GRID_CELLS,
};
use crate::models::calendar_model::{contains_key, key_set, CalendarModel};
use crate::navigation::clicked_date;
use crate::solar::{day_of_week, is_valid_day};

verus! {

/// A day as the interface draws it.
#[derive(Clone, Copy, Debug)]
pub struct CalendarDay {
    pub year: i32,
    pub month: i32,
    pub day: i32,
    pub is_today: bool,
    pub is_selected: bool,
    pub is_weekend: bool,
    pub is_current_month: bool,
    /// Some todo is due that day.
    pub has_todo: bool,
}

/// A month as the interface draws it.
pub struct CalendarMonth {
    pub year: i32,
    pub month: i32,
    pub days: Vec<CalendarDay>,
}

/// The interface's view of a grid cell, given the keys of the dates with todos.
pub open spec fn calendar_day_of(cell: DayCell, todo_dates: Seq<String>) -> CalendarDay {
    CalendarDay {
        year: cell.year as i32,
        month: cell.month as i32,
        day: cell.day as i32,
        is_today: cell.is_today,
        is_selected: cell.is_selected,
        is_weekend: cell.is_weekend,
        is_current_month: cell.is_current_month,
        has_todo: key_set(todo_dates).contains(
            date_key_text(cell.year as int, cell.month as int, cell.day as int),
        ),
    }
}

/// The interface's view of a grid cell: its date and flags, and whether
/// the key of its date is among `todo_dates`.
pub fn from_day_cell(day: DayCell, todo_dates: &Vec<String>) -> (r: CalendarDay)
    ensures
        r == calendar_day_of(day, todo_dates@),
        r.year == day.year as i32,
        r.month == day.month as i32,
        r.day == day.day as i32,
        r.is_today == day.is_today,
        r.is_selected == day.is_selected,
        r.is_weekend == day.is_weekend,
        r.is_current_month == day.is_current_month,
        r.has_todo <==> exists|k: int|
            0 <= k < todo_dates@.len() && #[trigger] todo_dates@[k]@ == date_key_text(
                day.year as int,
                day.month as int,
                day.day as int,
            ),
{
    let key = date_key(day.year, day.month, day.day);
    CalendarDay {
        year: day.year as i32,
        month: day.month as i32,
        day: day.day as i32,
        is_today: day.is_today,
        is_selected: day.is_selected,
        is_weekend: day.is_weekend,
        is_current_month: day.is_current_month,
        has_todo: contains_key(todo_dates, &key),
    }
}

/// The month the interface draws for `model`: the grid of the displayed
/// month with todo markers. `None` when the first day of the week cannot be
/// subtracted from the weekday of the 1st plus seven (the grid cannot be
/// built; only a first day above 7 can cause it).
pub fn calendar_month_data(model: &CalendarModel) -> (r: Option<CalendarMonth>)
    requires
        can_build_month_view(model.display.0 as int, model.display.1 as int),
    ensures
        (model.week_start_day <= day_of_week(model.display.0 as int, model.display.1 as int, 1)
            + 7) <==> r is Some,
        r matches Some(m) ==> {
            &&& m.year == model.display.0 as i32
            &&& m.month == model.display.1 as i32
            &&& m.days@.len() == GRID_CELLS
            &&& forall|i: int|
                0 <= i < GRID_CELLS ==> #[trigger] m.days@[i] == calendar_day_of(
                    grid_cell(
                        model.display.0 as int,
                        model.display.1 as int,
                        model.selected,
                        model.today,
                        model.week_start_day as int,
                        i,
                    ),
                    model.todo_dates@,
                )
            &&& forall|i: int|
                0 <= i < GRID_CELLS ==> {
                    let d = cell_date(
                        model.display.0 as int,
                        model.display.1 as int,
                        model.week_start_day as int,
                        i,
                    );
                    let c = #[trigger] m.days@[i];
                    &&& (c.year as int, c.month as int, c.day as int) == d
                    &&& c.is_today <==> d == (
                        model.today.0 as int,
                        model.today.1 as int,
                        model.today.2 as int,
                    )
                    &&& c.is_selected <==> d == (
                        model.selected.0 as int,
                        model.selected.1 as int,
                        model.selected.2 as int,
                    )
                    &&& c.is_current_month <==> (d.0 == model.display.0 && d.1 == model.display.1)
                    &&& c.is_weekend <==> (day_of_week(d.0, d.1, d.2) == 0 || day_of_week(
                        d.0,
                        d.1,
                        d.2,
                    ) == 6)
                    &&& c.has_todo <==> key_set(model.todo_dates@).contains(
                        date_key_text(d.0, d.1, d.2),
                    )
                }
        },
{
    let view = try_build_month_view(
        model.display.0,
        model.display.1,
        model.selected,
        model.today,
        model.week_start_day,
    );
    match view {
        None => None,
        Some(v) => {
            let mut days: Vec<CalendarDay> = Vec::new();
            for i in 0..v.days.len()
                invariant
                    days@.len() == i,
                    i <= v.days@.len(),
                    forall|j: int|
                        0 <= j < i ==> #[trigger] days@[j] == calendar_day_of(
                            v.days@[j],
                            model.todo_dates@,
                        ),
            {
                days.push(from_day_cell(v.days[i], &model.todo_dates));
            }
            proof {
                lemma_grid_cell_flags(
                    model.display.0 as int,
                    model.display.1 as int,
                    model.selected,
                    model.today,
                    model.week_start_day as int,
                );
                lemma_grid_layout(
                    model.display.0 as int,
                    model.display.1 as int,
                    model.week_start_day as int,
                );
                assert forall|i: int| 0 <= i < GRID_CELLS implies {
                    let d = cell_date(
                        model.display.0 as int,
                        model.display.1 as int,
                        model.week_start_day as int,
                        i,
                    );
                    let c = #[trigger] days@[i];
                    &&& (c.year as int, c.month as int, c.day as int) == d
                    &&& c.has_todo <==> key_set(model.todo_dates@).contains(
                        date_key_text(d.0, d.1, d.2),
                    )
                } by {
                    let d = cell_date(
                        model.display.0 as int,
                        model.display.1 as int,
                        model.week_start_day as int,
                        i,
                    );
                    let g = grid_cell(
                        model.display.0 as int,
                        model.display.1 as int,
                        model.selected,
                        model.today,
                        model.week_start_day as int,
                        i,
                    );
                    assert(is_valid_day(d.0, d.1, d.2));
                    assert((g.year as int, g.month as int, g.day as int) == d);
                }
            }
            Some(CalendarMonth { year: v.year as i32, month: v.month as i32, days })
        },
    }
}

/// A click on a day: selects it in the calendar (a month or day below 1
/// becomes 1) and returns the key of the clicked date, which becomes the
/// selected date of the todo list.
pub fn day_clicked(model: &mut CalendarModel, year: i32, month: i32, day: i32) -> (r: String)
    ensures
        final(model).selected == clicked_date(year as isize, month as usize, day as usize),
        final(model).display == old(model).display,
        final(model).today == old(model).today,
        final(model).week_start_day == old(model).week_start_day,
        final(model).todo_dates == old(model).todo_dates,
        r@ == date_key_text(year as int, month as int, day as int),
{
    model.select_day(year as isize, month as usize, day as usize);
    date_key_i32(year, month, day)
}

/// The interface's view of a cell keeps the cell's date and its today,
/// selected, weekend and current-month marks as they are; it adds the todo
/// marker, set exactly when the key of the cell's date is among `todo_dates`.
pub proof fn lemma_calendar_day_keeps_cell(cell: DayCell, todo_dates: Seq<String>)
    requires
        1 <= cell.year <= 9999,
        cell.month <= 12,
        cell.day <= 31,
    ensures
        calendar_day_of(cell, todo_dates).year as int == cell.year as int,
        calendar_day_of(cell, todo_dates).month as int == cell.month as int,
        calendar_day_of(cell, todo_dates).day as int == cell.day as int,
        calendar_day_of(cell, todo_dates).is_today == cell.is_today,
        calendar_day_of(cell, todo_dates).is_selected == cell.is_selected,
        calendar_day_of(cell, todo_dates).is_weekend == cell.is_weekend,
        calendar_day_of(cell, todo_dates).is_current_month == cell.is_current_month,
        calendar_day_of(cell, todo_dates).has_todo <==> exists|k: int|
            0 <= k < todo_dates.len() && #[trigger] todo_dates[k]@ == date_key_text(
                cell.year as int,
                cell.month as int,
                cell.day as int,
            ),
{
}

/// When the todo dates are the keys of dates with years 0 to 9999 and months
/// and days below 100, a cell of such a date carries a todo marker exactly
/// when its date is one of those dates.
pub proof fn lemma_todo_marker(cell: DayCell, todo_dates: Seq<String>, dates: Seq<(int, int, int)>)
    requires
        0 <= cell.year < 10000,
        cell.month < 100,
        cell.day < 100,
        dates.len() == todo_dates.len(),
        forall|k: int|
            0 <= k < dates.len() ==> {
                &&& 0 <= (#[trigger] dates[k]).0 < 10000
                &&& 0 <= dates[k].1 < 100
                &&& 0 <= dates[k].2 < 100
                &&& todo_dates[k]@ == date_key_text(dates[k].0, dates[k].1, dates[k].2)
            },
    ensures
        calendar_day_of(cell, todo_dates).has_todo <==> exists|k: int|
            0 <= k < dates.len() && #[trigger] dates[k] == (
                cell.year as int,
                cell.month as int,
                cell.day as int,
            ),
{
    let key = date_key_text(cell.year as int, cell.month as int, cell.day as int);
    if calendar_day_of(cell, todo_dates).has_todo {
        let i = choose|i: int| 0 <= i < todo_dates.len() && #[trigger] todo_dates[i]@ == key;
        let d = dates[i];
        lemma_date_key_identifies_date(d.0, d.1, d.2, cell.year as int, cell.month as int, cell.day as int);
        assert(dates[i] == (cell.year as int, cell.month as int, cell.day as int));
    }
    if exists|k: int|
        0 <= k < dates.len() && #[trigger] dates[k] == (
            cell.year as int,
            cell.month as int,
            cell.day as int,
        ) {
        let k = choose|k: int|
            0 <= k < dates.len() && #[trigger] dates[k] == (
                cell.year as int,
                cell.month as int,
                cell.day as int,
            );
        assert(todo_dates[k]@ == key);
        assert(key_set(todo_dates).contains(key));
    }
}

} // verus!
