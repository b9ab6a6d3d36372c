//! The month grid: six weeks of seven days around a displayed month,
//! with the trailing days of the previous month and the leading days of
//! the next one filling the first and last rows.

use chrono::Datelike;
use vstd::prelude::*;

use crate::solar::{
    day_before_first, last_day_of_month, lemma_end_of_october_1582, julian_day_number, lemma_days_within_month, lemma_next_first_day, days_in_month, is_valid_day, is_valid_month, lemma_days_in_month_range,
    lemma_next_month, lemma_previous_month, month_day_count, shift_month, shifted_month,
    day_of_week, week_index,
};

verus! {

/// A date as (year, month, day).
pub type Ymd = (isize, usize, usize);

/// Number of cells in a month grid: six rows of seven days.
pub const GRID_CELLS: usize = 42;

/// One cell of the month grid.
#[derive(Clone, Copy, Debug)]
pub struct DayCell {
    pub year: isize,
    pub month: usize,
    pub day: usize,
    pub is_today: bool,
    pub is_selected: bool,
    pub is_weekend: bool,
    /// Whether the cell belongs to the displayed month (the others are
    /// greyed-out days of the neighbouring months).
    pub is_current_month: bool,
}

/// The grid of a displayed month.
pub struct MonthView {
    pub year: isize,
    pub month: usize,
    /// Always `GRID_CELLS` cells, row by row.
    pub days: Vec<DayCell>,
}

/// Today's date in the local time zone, from `chrono::Local::now()`.
/// What date comes back depends on the clock; the contract states only
/// that the month and day are in range.
#[verifier::external_body]
pub fn today_ymd() -> (r: Ymd)
    ensures
        1 <= r.1 <= 12,
        1 <= r.2 <= 31,
{
    let today = chrono::Local::now().date_naive();
    (today.year() as isize, today.month() as usize, today.day() as usize)
}

/// Label of a day of the week, 0 for Sunday to 6 for Saturday.
pub open spec fn weekday_name(index: int) -> Seq<char> {
    if index == 0 {
        "日"@
    } else if index == 1 {
        "一"@
    } else if index == 2 {
        "二"@
    } else if index == 3 {
        "三"@
    } else if index == 4 {
        "四"@
    } else if index == 5 {
        "五"@
    } else {
        "六"@
    }
}

fn weekday_label(index: usize) -> (r: &'static str)
    requires
        index < 7,
    ensures
        r@ == weekday_name(index as int),
{
    match index {
        0 => "日",
        1 => "一",
        2 => "二",
        3 => "三",
        4 => "四",
        5 => "五",
        _ => "六",
    }
}

/// The seven column titles of a grid whose weeks start on `start_day`
/// (0 Sunday, 1 Monday, ...): column `i` is the day `(start_day + i) % 7`.
pub fn get_weekday_names(start_day: usize) -> (r: Vec<&'static str>)
    requires
        start_day + 6 <= usize::MAX,
    ensures
        r@.len() == 7,
        forall|i: int| 0 <= i < 7 ==> #[trigger] r@[i]@ == weekday_name((start_day + i) % 7),
{
    let mut result: Vec<&'static str> = Vec::with_capacity(7);
    for i in 0..7usize
        invariant
            start_day + 6 <= usize::MAX,
            result@.len() == i,
            forall|j: int| 0 <= j < i ==> #[trigger] result@[j]@ == weekday_name((start_day + j) % 7),
    {
        result.push(weekday_label((start_day + i) % 7));
    }
    result
}

/// The cell of the date (`year`, `month`, `day`) in the grid of `current_month`
/// of `current_year`.
pub open spec fn day_cell_of(
    year: int,
    month: int,
    day: int,
    selected: Ymd,
    today: Ymd,
    current_month: int,
    current_year: int,
) -> DayCell {
    let week = day_of_week(year, month, day);
    DayCell {
        year: year as isize,
        month: month as usize,
        day: day as usize,
        is_today: year == today.0 && month == today.1 && day == today.2,
        is_selected: year == selected.0 && month == selected.1 && day == selected.2,
        is_weekend: week == 0 || week == 6,
        is_current_month: year == current_year && month == current_month,
    }
}

fn to_day_cell(
    year: isize,
    month: usize,
    day: usize,
    selected: Ymd,
    today: Ymd,
    current_month: usize,
    current_year: isize,
) -> (r: DayCell)
    requires
        is_valid_day(year as int, month as int, day as int),
    ensures
        r == day_cell_of(
            year as int,
            month as int,
            day as int,
            selected,
            today,
            current_month as int,
            current_year as int,
        ),
        r.year == year && r.month == month && r.day == day,
        r.is_today <==> (year, month, day) == today,
        r.is_selected <==> (year, month, day) == selected,
        r.is_weekend <==> (day_of_week(year as int, month as int, day as int) == 0
            || day_of_week(year as int, month as int, day as int) == 6),
        r.is_current_month <==> (year == current_year && month == current_month),
{
    let week = week_index(year, month, day);
    DayCell {
        year,
        month,
        day,
        is_today: year == today.0 && month == today.1 && day == today.2,
        is_selected: year == selected.0 && month == selected.1 && day == selected.2,
        is_weekend: week == 0 || week == 6,
        is_current_month: year == current_year && month == current_month,
    }
}

/// Months whose grid can be built: a previous and a next month exist within
/// the years 1 to 9999, and every date the grid shows is a valid day (the
/// grids of September and October 1582 would show the dropped 5th to 14th
/// of October).
pub open spec fn can_build_month_view(year: int, month: int) -> bool {
    &&& is_valid_month(year, month)
    &&& !(year == 1 && month == 1)
    &&& !(year == 9999 && month == 12)
    &&& !(year == 1582 && (month == 9 || month == 10))
}

/// Whether the grid of `month` of `year` can be built.
pub fn month_view_available(year: isize, month: usize) -> (r: bool)
    ensures
        r == can_build_month_view(year as int, month as int),
{
    1 <= year && year <= 9999 && 1 <= month && month <= 12 && !(year == 1 && month == 1) && !(
    year == 9999 && month == 12) && !(year == 1582 && (month == 9 || month == 10))
}

/// Number of days of the previous month shown before the 1st, for weeks
/// starting on `week_start_day`.
pub open spec fn leading_days(year: int, month: int, week_start_day: int) -> int {
    (day_of_week(year, month, 1) + 7 - week_start_day) % 7
}

/// The date shown in cell `i` of the grid of `month` of `year`.
pub open spec fn cell_date(year: int, month: int, week_start_day: int, i: int) -> (int, int, int) {
    let leading = leading_days(year, month, week_start_day);
    let prev = shifted_month(year, month, -1);
    let next = shifted_month(year, month, 1);
    let count = days_in_month(year, month);
    if i < leading {
        (prev.0, prev.1, last_day_of_month(prev.0, prev.1) - leading + i + 1)
    } else if i < leading + count {
        (year, month, i - leading + 1)
    } else {
        (next.0, next.1, i - leading - count + 1)
    }
}

/// The cell `i` of the grid of `month` of `year`.
pub open spec fn grid_cell(
    year: int,
    month: int,
    selected: Ymd,
    today: Ymd,
    week_start_day: int,
    i: int,
) -> DayCell {
    let d = cell_date(year, month, week_start_day, i);
    day_cell_of(d.0, d.1, d.2, selected, today, month, year)
}

/// Builds the grid of `month` of `year`: the last days of the previous month
/// up to the column of the 1st, every day of the month, then the first days
/// of the next month up to `GRID_CELLS` cells. `week_start_day` is the day
/// of the week (0 Sunday, 1 Monday, ...) of the first column.
pub fn build_month_view(
    year: isize,
    month: usize,
    selected: Ymd,
    today: Ymd,
    week_start_day: usize,
) -> (r: MonthView)
    requires
        can_build_month_view(year as int, month as int),
        week_start_day <= day_of_week(year as int, month as int, 1) + 7,
    ensures
        r.year == year,
        r.month == month,
        r.days@.len() == GRID_CELLS,
        forall|i: int|
            0 <= i < GRID_CELLS ==> #[trigger] r.days@[i] == grid_cell(
                year as int,
                month as int,
                selected,
                today,
                week_start_day as int,
                i,
            ),
        forall|i: int|
            0 <= i < GRID_CELLS ==> {
                let d = cell_date(year as int, month as int, week_start_day as int, i);
                let c = #[trigger] r.days@[i];
                &&& (c.year as int, c.month as int, c.day as int) == d
                &&& c.is_today <==> d == (today.0 as int, today.1 as int, today.2 as int)
                &&& c.is_selected <==> d == (selected.0 as int, selected.1 as int, selected.2 as int)
                &&& c.is_current_month <==> (d.0 == year && d.1 == month)
                &&& c.is_weekend <==> (day_of_week(d.0, d.1, d.2) == 0 || day_of_week(d.0, d.1, d.2) == 6)
            },
{
    proof {
        lemma_previous_month(year as int, month as int);
        lemma_next_month(year as int, month as int);
    }
    let next = shift_month(year, month, 1);
    let ghost y = year as int;
    let ghost m = month as int;
    let ghost wsd = week_start_day as int;

    let raw_index = week_index(year, month, 1);
    let leading = (raw_index + 7 - week_start_day) % 7;
    let mut days: Vec<DayCell> = Vec::new();

    proof {
        lemma_days_in_month_range(shifted_month(y, m, -1).0, shifted_month(y, m, -1).1);
    }
    for i in 0..leading
        invariant
            can_build_month_view(y, m),
            year as int == y,
            month as int == m,
            week_start_day as int == wsd,
            leading as int == leading_days(y, m, wsd),
            leading < 7,
            shifted_month(y, m, -1) == (if m == 1 { (y - 1, 12) } else { (y, m - 1) }),
            days@.len() == i,
            forall|j: int|
                0 <= j < i ==> #[trigger] days@[j] == grid_cell(y, m, selected, today, wsd, j),
    {
        let before = day_before_first(year, month, leading - i);
        days.push(to_day_cell(before.0, before.1, before.2, selected, today, month, year));
    }

    let current_count = month_day_count(year, month);
    proof {
        lemma_days_in_month_range(y, m);
    }
    for d in 1..current_count + 1
        invariant
            can_build_month_view(y, m),
            year as int == y,
            month as int == m,
            week_start_day as int == wsd,
            leading as int == leading_days(y, m, wsd),
            leading < 7,
            current_count as int == days_in_month(y, m),
            28 <= current_count <= 31,
            1 <= d <= current_count + 1,
            days@.len() == leading + d - 1,
            forall|j: int|
                0 <= j < days@.len() ==> #[trigger] days@[j] == grid_cell(
                    y,
                    m,
                    selected,
                    today,
                    wsd,
                    j,
                ),
    {
        days.push(to_day_cell(year, month, d, selected, today, month, year));
    }

    let trailing = GRID_CELLS - days.len();
    for d in 1..trailing + 1
        invariant
            can_build_month_view(y, m),
            year as int == y,
            month as int == m,
            week_start_day as int == wsd,
            leading as int == leading_days(y, m, wsd),
            leading < 7,
            current_count as int == days_in_month(y, m),
            28 <= current_count <= 31,
            (next.0 as int, next.1 as int) == shifted_month(y, m, 1),
            shifted_month(y, m, 1) == (if m == 12 { (y + 1, 1) } else { (y, m + 1) }),
            trailing == GRID_CELLS - leading - current_count,
            1 <= d <= trailing + 1,
            days@.len() == leading + current_count + d - 1,
            forall|j: int|
                0 <= j < days@.len() ==> #[trigger] days@[j] == grid_cell(
                    y,
                    m,
                    selected,
                    today,
                    wsd,
                    j,
                ),
    {
        proof {
            lemma_days_in_month_range(next.0 as int, next.1 as int);
        }
        days.push(to_day_cell(next.0, next.1, d, selected, today, month, year));
    }
    proof {
        lemma_grid_cell_flags(y, m, selected, today, wsd);
    }
    MonthView { year, month, days }
}

/// Builds the grid as `build_month_view` does when the first column's day
/// can be subtracted from the weekday of the 1st plus seven, and `None`
/// otherwise (only a `week_start_day` above 7 can fail that test).
pub fn try_build_month_view(
    year: isize,
    month: usize,
    selected: Ymd,
    today: Ymd,
    week_start_day: usize,
) -> (r: Option<MonthView>)
    requires
        can_build_month_view(year as int, month as int),
    ensures
        (week_start_day <= day_of_week(year as int, month as int, 1) + 7) <==> r is Some,
        r matches Some(v) ==> {
            &&& v.year == year
            &&& v.month == month
            &&& v.days@.len() == GRID_CELLS
            &&& forall|i: int|
                0 <= i < GRID_CELLS ==> #[trigger] v.days@[i] == grid_cell(
                    year as int,
                    month as int,
                    selected,
                    today,
                    week_start_day as int,
                    i,
                )
        },
{
    let first = week_index(year, month, 1);
    if week_start_day <= first + 7 {
        Some(build_month_view(year, month, selected, today, week_start_day))
    } else {
        None
    }
}

/// The shape of a grid: the days of the displayed month fill the cells from
/// `leading_days` on, in order from the 1st, and only those cells belong to
/// it; every cell shows a valid date and no date is shown twice; the title
/// of the column of the 1st is the weekday of the 1st.
pub proof fn lemma_grid_layout(year: int, month: int, week_start_day: int)
    requires
        can_build_month_view(year, month),
        0 <= week_start_day <= day_of_week(year, month, 1) + 7,
    ensures
        0 <= leading_days(year, month, week_start_day) < 7,
        weekday_name((week_start_day + leading_days(year, month, week_start_day)) % 7)
            == weekday_name((day_of_week(year, month, 1) % 7) as int),
        forall|i: int|
            0 <= i < GRID_CELLS ==> {
                let d = #[trigger] cell_date(year, month, week_start_day, i);
                &&& is_valid_day(d.0, d.1, d.2)
                &&& ((d.0 == year && d.1 == month) <==> (leading_days(year, month, week_start_day)
                    <= i < leading_days(year, month, week_start_day) + days_in_month(year, month)))
                &&& (d.0 == year && d.1 == month) ==> d.2 == i - leading_days(
                    year,
                    month,
                    week_start_day,
                ) + 1
            },
        forall|i: int, j: int|
            0 <= i < j < GRID_CELLS ==> #[trigger] cell_date(year, month, week_start_day, i)
                != #[trigger] cell_date(year, month, week_start_day, j),
{
    lemma_previous_month(year, month);
    lemma_next_month(year, month);
    let prev = shifted_month(year, month, -1);
    let next = shifted_month(year, month, 1);
    lemma_days_in_month_range(prev.0, prev.1);
    lemma_days_in_month_range(year, month);
    lemma_days_in_month_range(next.0, next.1);
    let w = day_of_week(year, month, 1) as int;
    let lead = leading_days(year, month, week_start_day);
    assert((week_start_day + (w + 7 - week_start_day) % 7) % 7 == w % 7) by (nonlinear_arith)
        requires
            0 <= week_start_day <= w + 7,
    ;
    assert forall|i: int, j: int|
        0 <= i < j < GRID_CELLS implies #[trigger] cell_date(year, month, week_start_day, i)
        != #[trigger] cell_date(year, month, week_start_day, j) by {
    }
}

/// What a grid cell shows: the date `cell_date` places in it, marked as
/// today exactly when that date is `today`, as selected exactly when it is
/// `selected` (whether or not it lies in the displayed month), as belonging
/// to the displayed month exactly when its year and month are the displayed
/// ones, and as a weekend day exactly when it falls on a Sunday or Saturday.
pub proof fn lemma_grid_cell_flags(year: int, month: int, selected: Ymd, today: Ymd, week_start_day: int)
    requires
        can_build_month_view(year, month),
        0 <= week_start_day <= day_of_week(year, month, 1) + 7,
    ensures
        forall|i: int|
            0 <= i < GRID_CELLS ==> {
                let d = cell_date(year, month, week_start_day, i);
                let c = #[trigger] grid_cell(year, month, selected, today, week_start_day, i);
                &&& (c.year as int, c.month as int, c.day as int) == d
                &&& c.is_today <==> d == (today.0 as int, today.1 as int, today.2 as int)
                &&& c.is_selected <==> d == (selected.0 as int, selected.1 as int, selected.2 as int)
                &&& c.is_current_month <==> (d.0 == year && d.1 == month)
                &&& c.is_weekend <==> (day_of_week(d.0, d.1, d.2) == 0 || day_of_week(d.0, d.1, d.2) == 6)
            },
{
    lemma_grid_layout(year, month, week_start_day);
    assert forall|i: int| 0 <= i < GRID_CELLS implies {
        let d = cell_date(year, month, week_start_day, i);
        let c = #[trigger] grid_cell(year, month, selected, today, week_start_day, i);
        &&& (c.year as int, c.month as int, c.day as int) == d
        &&& c.is_today <==> d == (today.0 as int, today.1 as int, today.2 as int)
        &&& c.is_selected <==> d == (selected.0 as int, selected.1 as int, selected.2 as int)
        &&& c.is_current_month <==> (d.0 == year && d.1 == month)
        &&& c.is_weekend <==> (day_of_week(d.0, d.1, d.2) == 0 || day_of_week(d.0, d.1, d.2) == 6)
    } by {
        let d = cell_date(year, month, week_start_day, i);
        assert(is_valid_day(d.0, d.1, d.2));
    }
}

/// Days one apart in Julian day number are one apart in the week, so a day
/// `offset` days after a day of week `first` falls on `(first + offset) % 7`.
proof fn lemma_week_shift(j: int, lead: int, start: int, i: int)
    requires
        0 <= i,
        0 <= start <= (j + 1) % 7 + 7,
        lead == ((j + 1) % 7 + 7 - start) % 7,
    ensures
        (j + i - lead + 1) % 7 == (start + i % 7) % 7,
{
    let a = j + 1;
    vstd::arithmetic::div_mod::lemma_fundamental_div_mod(a, 7);
    vstd::arithmetic::div_mod::lemma_fundamental_div_mod(i, 7);
    let r = a % 7;
    let k = (r + 7 - start) / 7;
    vstd::arithmetic::div_mod::lemma_fundamental_div_mod(r + 7 - start, 7);
    assert(j + i - lead + 1 == 7 * (a / 7 - 1 + k + i / 7) + (start + i % 7));
    vstd::arithmetic::div_mod::lemma_mod_multiples_vanish(a / 7 - 1 + k + i / 7, start + i % 7, 7);
}

/// Every cell of a grid lies in the column of its weekday: the day of the
/// week of cell `i` is `(week_start_day + i % 7) % 7`, the day whose title
/// `get_weekday_names(week_start_day)` puts over column `i % 7`. The cells
/// are consecutive days: cell `i` lies `i - leading_days` days after the 1st.
pub proof fn lemma_grid_columns(year: int, month: int, week_start_day: int)
    requires
        can_build_month_view(year, month),
        0 <= week_start_day <= day_of_week(year, month, 1) + 7,
    ensures
        forall|i: int|
            0 <= i < GRID_CELLS ==> {
                let d = #[trigger] cell_date(year, month, week_start_day, i);
                &&& julian_day_number(d.0, d.1, d.2) == julian_day_number(year, month, 1) + i
                    - leading_days(year, month, week_start_day)
                &&& day_of_week(d.0, d.1, d.2) == (week_start_day + i % 7) % 7
            },
{
    lemma_previous_month(year, month);
    lemma_next_month(year, month);
    let prev = shifted_month(year, month, -1);
    let next = shifted_month(year, month, 1);
    lemma_next_month(prev.0, prev.1);
    lemma_next_first_day(prev.0, prev.1);
    lemma_next_first_day(year, month);
    lemma_days_in_month_range(prev.0, prev.1);
    lemma_days_in_month_range(year, month);
    lemma_days_in_month_range(next.0, next.1);
    let j1 = julian_day_number(year, month, 1);
    let lead = leading_days(year, month, week_start_day);
    let count = days_in_month(year, month);
    assert forall|i: int| 0 <= i < GRID_CELLS implies {
        let d = #[trigger] cell_date(year, month, week_start_day, i);
        &&& julian_day_number(d.0, d.1, d.2) == julian_day_number(year, month, 1) + i
            - leading_days(year, month, week_start_day)
        &&& day_of_week(d.0, d.1, d.2) == (week_start_day + i % 7) % 7
    } by {
        let d = cell_date(year, month, week_start_day, i);
        if i < lead {
            if prev.0 == 1582 && prev.1 == 10 {
                lemma_end_of_october_1582(d.2);
            } else {
                lemma_days_within_month(prev.0, prev.1, d.2);
            }
        } else if i < lead + count {
            lemma_days_within_month(year, month, d.2);
        } else {
            lemma_days_within_month(next.0, next.1, d.2);
        }
        assert(julian_day_number(d.0, d.1, d.2) == j1 + i - lead);
        lemma_week_shift(j1, lead, week_start_day, i);
    }
}

/// At most one cell of a grid is marked as today, and at most one as selected.
pub proof fn lemma_grid_marks_unique(
    year: int,
    month: int,
    selected: Ymd,
    today: Ymd,
    week_start_day: int,
)
    requires
        can_build_month_view(year, month),
        0 <= week_start_day <= day_of_week(year, month, 1) + 7,
    ensures
        forall|i: int, j: int|
            0 <= i < GRID_CELLS && 0 <= j < GRID_CELLS && #[trigger] grid_cell(
                year,
                month,
                selected,
                today,
                week_start_day,
                i,
            ).is_today && #[trigger] grid_cell(year, month, selected, today, week_start_day, j).is_today
                ==> i == j,
        forall|i: int, j: int|
            0 <= i < GRID_CELLS && 0 <= j < GRID_CELLS && #[trigger] grid_cell(
                year,
                month,
                selected,
                today,
                week_start_day,
                i,
            ).is_selected && #[trigger] grid_cell(
                year,
                month,
                selected,
                today,
                week_start_day,
                j,
            ).is_selected ==> i == j,
{
    lemma_grid_layout(year, month, week_start_day);
    assert forall|i: int, j: int|
        0 <= i < GRID_CELLS && 0 <= j < GRID_CELLS && #[trigger] grid_cell(
            year,
            month,
            selected,
            today,
            week_start_day,
            i,
        ).is_today && #[trigger] grid_cell(year, month, selected, today, week_start_day, j).is_today
        implies i == j by {
        if i < j {
            assert(cell_date(year, month, week_start_day, i) != cell_date(year, month, week_start_day, j));
        } else if j < i {
            assert(cell_date(year, month, week_start_day, j) != cell_date(year, month, week_start_day, i));
        }
    }
    assert forall|i: int, j: int|
        0 <= i < GRID_CELLS && 0 <= j < GRID_CELLS && #[trigger] grid_cell(
            year,
            month,
            selected,
            today,
            week_start_day,
            i,
        ).is_selected && #[trigger] grid_cell(
            year,
            month,
            selected,
            today,
            week_start_day,
            j,
        ).is_selected implies i == j by {
        if i < j {
            assert(cell_date(year, month, week_start_day, i) != cell_date(year, month, week_start_day, j));
        } else if j < i {
            assert(cell_date(year, month, week_start_day, j) != cell_date(year, month, week_start_day, i));
        }
    }
}

} // verus!
