//! Moving through the calendar: shifting the displayed month, jumping back
//! to today and normalising a clicked date. Every calendar state of the
//! crate moves by these rules.

use vstd::prelude::*;

use crate::model::Ymd;
use crate::solar::{can_shift_month, shift_month, shifted_month, month_serial};

verus! {

/// What a calendar state holds: the displayed (year, month), the selected
/// date, today's date and the day of the week of the first grid column.
pub struct CalendarNav {
    pub display: (isize, usize),
    pub selected: Ymd,
    pub today: Ymd,
    pub week_start_day: usize,
}

/// The displayed month of a calendar state may move by `offset` months.
pub open spec fn can_shift_display(display: (isize, usize), offset: int) -> bool {
    can_shift_month(display.0 as int, display.1 as int, offset)
}

/// The displayed month after moving `offset` months.
pub open spec fn shifted_display(display: (isize, usize), offset: int) -> (isize, usize) {
    let s = shifted_month(display.0 as int, display.1 as int, offset);
    (s.0 as isize, s.1 as usize)
}

/// The date a click on (`year`, `month`, `day`) selects: month and day
/// below 1 become 1.
pub open spec fn clicked_date(year: isize, month: usize, day: usize) -> Ymd {
    (year, if month < 1 { 1 } else { month }, if day < 1 { 1 } else { day })
}

/// The month containing `today`.
pub open spec fn month_of(day: Ymd) -> (isize, usize) {
    (day.0, day.1)
}

/// Whether the displayed month may move by `offset` months.
pub fn display_can_shift(display: (isize, usize), offset: isize) -> (r: bool)
    ensures
        r == can_shift_display(display, offset as int),
{
    if !(1 <= display.0 && display.0 <= 9999 && 1 <= display.1 && display.1 <= 12) {
        return false;
    }
    let serial: isize = display.0 * 12 + display.1 as isize - 1;
    offset >= 12 - serial && offset < 120000 - serial
}

/// Moves a displayed month by `offset` months.
pub fn shift_display(display: (isize, usize), offset: isize) -> (r: (isize, usize))
    requires
        can_shift_display(display, offset as int),
    ensures
        r == shifted_display(display, offset as int),
{
    shift_month(display.0, display.1, offset)
}

/// Normalises a clicked date: month and day below 1 become 1.
pub fn clicked(year: isize, month: usize, day: usize) -> (r: Ymd)
    ensures
        r == clicked_date(year, month, day),
{
    (year, if month < 1 { 1 } else { month }, if day < 1 { 1 } else { day })
}

/// The state after moving the displayed month by `offset` months.
pub open spec fn nav_shifted(nav: CalendarNav, offset: int) -> CalendarNav {
    CalendarNav { display: shifted_display(nav.display, offset), ..nav }
}

/// The state after jumping to today: today's month shown, today selected.
pub open spec fn nav_today(nav: CalendarNav) -> CalendarNav {
    CalendarNav { display: month_of(nav.today), selected: nav.today, ..nav }
}

/// The state after a click on (`year`, `month`, `day`).
pub open spec fn nav_selected(nav: CalendarNav, year: isize, month: usize, day: usize) -> CalendarNav {
    CalendarNav { selected: clicked_date(year, month, day), ..nav }
}

/// The state with another first day of the week.
pub open spec fn nav_week_start(nav: CalendarNav, day: usize) -> CalendarNav {
    CalendarNav { week_start_day: day, ..nav }
}

/// Moving by `a` months and then by `b` months is moving by `a + b` months.
pub proof fn lemma_shift_compose(display: (isize, usize), a: int, b: int)
    requires
        can_shift_display(display, a),
        can_shift_display(display, a + b),
    ensures
        can_shift_display(shifted_display(display, a), b),
        shifted_display(shifted_display(display, a), b) == shifted_display(display, a + b),
{
    let t = month_serial(display.0 as int, display.1 as int) + a;
    assert(t == (t / 12) * 12 + t % 12) by (nonlinear_arith);
}

/// Moving by zero months keeps a valid displayed month.
proof fn lemma_shift_zero(display: (isize, usize))
    requires
        can_shift_display(display, 0),
    ensures
        shifted_display(display, 0) == display,
{
}

/// The next month undoes the previous month.
pub proof fn lemma_next_undoes_prev(nav: CalendarNav)
    requires
        can_shift_display(nav.display, -1),
    ensures
        can_shift_display(nav_shifted(nav, -1).display, 1),
        nav_shifted(nav_shifted(nav, -1), 1) == nav,
{
    lemma_shift_compose(nav.display, -1, 1);
    lemma_shift_zero(nav.display);
}

/// The previous month undoes the next month.
pub proof fn lemma_prev_undoes_next(nav: CalendarNav)
    requires
        can_shift_display(nav.display, 1),
    ensures
        can_shift_display(nav_shifted(nav, 1).display, -1),
        nav_shifted(nav_shifted(nav, 1), -1) == nav,
{
    lemma_shift_compose(nav.display, 1, -1);
    lemma_shift_zero(nav.display);
}

/// Moving the displayed month, selecting a date or changing the first day
/// of the week never changes today's date; jumping to today twice is
/// jumping once, and afterwards today is selected and shown.
pub proof fn lemma_today_is_stable(nav: CalendarNav, offset: int, year: isize, month: usize, day: usize, start: usize)
    ensures
        nav_shifted(nav, offset).today == nav.today,
        nav_selected(nav, year, month, day).today == nav.today,
        nav_week_start(nav, start).today == nav.today,
        nav_today(nav_today(nav)) == nav_today(nav),
        nav_today(nav).selected == nav.today,
        nav_today(nav).display == month_of(nav.today),
{
}

/// What each move does to a calendar state, field by field: moving the
/// displayed month changes only the displayed month; jumping to today shows
/// today's month and selects today and changes nothing else; a click selects
/// the clicked date when its month and day are at least 1, puts 1 in place
/// of a month or day below 1, and changes nothing else; changing the first
/// day of the week sets it to the given day and changes nothing else.
pub proof fn lemma_navigation_fields(
    nav: CalendarNav,
    offset: int,
    year: isize,
    month: usize,
    day: usize,
    start: usize,
)
    ensures
        nav_shifted(nav, offset).display == shifted_display(nav.display, offset),
        nav_shifted(nav, offset).selected == nav.selected,
        nav_shifted(nav, offset).week_start_day == nav.week_start_day,
        nav_today(nav).display == (nav.today.0, nav.today.1),
        nav_today(nav).selected == nav.today,
        nav_today(nav).week_start_day == nav.week_start_day,
        nav_today(nav).today == nav.today,
        nav_selected(nav, year, month, day).selected.0 == year,
        month >= 1 ==> nav_selected(nav, year, month, day).selected.1 == month,
        month < 1 ==> nav_selected(nav, year, month, day).selected.1 == 1,
        day >= 1 ==> nav_selected(nav, year, month, day).selected.2 == day,
        day < 1 ==> nav_selected(nav, year, month, day).selected.2 == 1,
        nav_selected(nav, year, month, day).display == nav.display,
        nav_selected(nav, year, month, day).today == nav.today,
        nav_selected(nav, year, month, day).week_start_day == nav.week_start_day,
        nav_week_start(nav, start).week_start_day == start,
        nav_week_start(nav, start).display == nav.display,
        nav_week_start(nav, start).selected == nav.selected,
        nav_week_start(nav, start).today == nav.today,
{
}

/// A normalised click always selects a month and a day of at least 1, and
/// keeps a click that already had them.
pub proof fn lemma_clicked_date_positive(year: isize, month: usize, day: usize)
    ensures
        clicked_date(year, month, day).1 >= 1,
        clicked_date(year, month, day).2 >= 1,
        month >= 1 && day >= 1 ==> clicked_date(year, month, day) == (year, month, day),
{
}

} // verus!
