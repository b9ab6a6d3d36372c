//! Gregorian calendar facts, computed by the `tyme4rs` solar calendar.
//!
//! Years run from 1 to 9999. October 1582 is the month in which the
//! Gregorian reform dropped the 5th to the 14th, and `tyme4rs` counts
//! 21 days in it; years before 1600 use the Julian leap rule.

use tyme4rs::tyme::solar::{SolarDay, SolarMonth};
use tyme4rs::tyme::Tyme;
use vstd::prelude::*;

verus! {

/// A year and month that `tyme4rs` accepts.
pub open spec fn is_valid_month(year: int, month: int) -> bool {
    &&& 1 <= year <= 9999
    &&& 1 <= month <= 12
}

/// The leap year rule of `tyme4rs`: Julian before 1600, Gregorian from then on.
pub open spec fn is_leap_year(year: int) -> bool {
    if year < 1600 {
        year % 4 == 0
    } else {
        (year % 4 == 0 && year % 100 != 0) || year % 400 == 0
    }
}

/// Number of days `tyme4rs` counts in a month.
pub open spec fn days_in_month(year: int, month: int) -> int {
    if year == 1582 && month == 10 {
        21
    } else if month == 2 {
        if is_leap_year(year) {
            29
        } else {
            28
        }
    } else if month == 4 || month == 6 || month == 9 || month == 11 {
        30
    } else {
        31
    }
}

/// The last day of a month: `days_in_month`, except October 1582, whose
/// days run 1 to 4 and 15 to 31.
pub open spec fn last_day_of_month(year: int, month: int) -> int {
    if year == 1582 && month == 10 {
        31
    } else {
        days_in_month(year, month)
    }
}

/// A date that `tyme4rs` accepts as a solar day.
pub open spec fn is_valid_day(year: int, month: int, day: int) -> bool {
    &&& is_valid_month(year, month)
    &&& 1 <= day
    &&& if year == 1582 && month == 10 {
        !(4 < day < 15) && day <= 31
    } else {
        day <= days_in_month(year, month)
    }
}

/// Months counted from January of year 0.
pub open spec fn month_serial(year: int, month: int) -> int {
    year * 12 + month - 1
}

/// The year and month `offset` months after (before, if negative) the given one.
pub open spec fn shifted_month(year: int, month: int, offset: int) -> (int, int) {
    let t = month_serial(year, month) + offset;
    (t / 12, t % 12 + 1)
}

/// The shift stays within the years 1 to 9999.
pub open spec fn can_shift_month(year: int, month: int, offset: int) -> bool {
    &&& is_valid_month(year, month)
    &&& 12 <= month_serial(year, month) + offset < 120000
}

/// Whether `tyme4rs` counts a date in the Gregorian calendar: from
/// 15 October 1582 on; earlier dates are Julian.
pub open spec fn is_gregorian_date(year: int, month: int, day: int) -> bool {
    year * 372 + month * 31 + day >= 588829
}

/// The Julian day number of a date (noon of that day), Julian calendar
/// before the reform and Gregorian from 15 October 1582 on.
pub open spec fn julian_day_number(year: int, month: int, day: int) -> int {
    let a: int = if month <= 2 { 1 } else { 0 };
    let y = year + 4800 - a;
    let m = month + 12 * a - 3;
    if is_gregorian_date(year, month, day) {
        day + (153 * m + 2) / 5 + 365 * y + y / 4 - y / 100 + y / 400 - 32045
    } else {
        day + (153 * m + 2) / 5 + 365 * y + y / 4 - 32083
    }
}

/// Day of the week of a date, 0 for Sunday to 6 for Saturday.
pub open spec fn day_of_week(year: int, month: int, day: int) -> int {
    (julian_day_number(year, month, day) + 1) % 7
}

/// `SolarMonth::from_ym(year, month).next(offset)`, read back as year and month.
/// The crate computes `i = month - 1 + offset` and builds the month
/// `((year * 12 + i) / 12, i mod 12 + 1)`, panicking unless that year is in 1..=9999;
/// the contract states that arithmetic.
#[verifier::external_body]
pub fn shift_month(year: isize, month: usize, offset: isize) -> (r: (isize, usize))
    requires
        can_shift_month(year as int, month as int, offset as int),
    ensures
        (r.0 as int, r.1 as int) == shifted_month(year as int, month as int, offset as int),
{
    let m = SolarMonth::from_ym(year, month).next(offset);
    (m.get_year(), m.get_month())
}

/// `SolarMonth::from_ym(year, month).get_day_count()`: the crate's month length
/// table with its leap rule and its 21-day October 1582, as `days_in_month` states.
#[verifier::external_body]
pub fn month_day_count(year: isize, month: usize) -> (r: usize)
    requires
        is_valid_month(year as int, month as int),
    ensures
        r as int == days_in_month(year as int, month as int),
{
    SolarMonth::from_ym(year, month).get_day_count()
}

/// `SolarDay::from_ymd(year, month, day).get_week().get_index()`: the day of the
/// week, an index into the crate's seven week names (0 is Sunday). The crate
/// takes the Julian day of the date (`JulianDay::from_ymd_hms`, Gregorian from
/// 15 October 1582, computed in `f64`) and reduces it modulo 7; the contract
/// states the result as the integer Julian day number plus one, modulo 7.
#[verifier::external_body]
pub fn week_index(year: isize, month: usize, day: usize) -> (r: usize)
    requires
        is_valid_day(year as int, month as int, day as int),
    ensures
        r as int == day_of_week(year as int, month as int, day as int),
{
    SolarDay::from_ymd(year, month, day).get_week().get_index()
}

/// `SolarDay::from_ymd(year, month, 1).next(-back)`, read back as year, month and
/// day: the date `back` days before the 1st of the month. The crate goes through
/// the Julian day (`JulianDay::next`, then `get_solar_time`, in `f64`); the
/// contract states the resulting date, which for one to six days back is a day
/// of the previous month counted back from its last day.
#[verifier::external_body]
pub fn day_before_first(year: isize, month: usize, back: usize) -> (r: (isize, usize, usize))
    requires
        is_valid_month(year as int, month as int),
        !(year == 1 && month == 1),
        1 <= back <= 6,
    ensures
        ({
            let p = shifted_month(year as int, month as int, -1);
            (r.0 as int, r.1 as int, r.2 as int) == (p.0, p.1, last_day_of_month(p.0, p.1) - back + 1)
        }),
{
    let d = SolarDay::from_ymd(year, month, 1).next(-(back as isize));
    (d.get_year(), d.get_month(), d.get_day())
}

/// The last days of October 1582 come right before 1 November 1582.
pub proof fn lemma_end_of_october_1582(day: int)
    requires
        15 <= day <= 31,
    ensures
        julian_day_number(1582, 10, day) == julian_day_number(1582, 11, 1) + day - 32,
{
}

/// The month before a valid month other than January of year 1.
pub proof fn lemma_previous_month(year: int, month: int)
    requires
        is_valid_month(year, month),
    ensures
        shifted_month(year, month, -1) == (if month == 1 {
            (year - 1, 12)
        } else {
            (year, month - 1)
        }),
{
}

/// The month after a valid month.
pub proof fn lemma_next_month(year: int, month: int)
    requires
        is_valid_month(year, month),
    ensures
        shifted_month(year, month, 1) == (if month == 12 {
            (year + 1, 1)
        } else {
            (year, month + 1)
        }),
{
}

/// Within a month other than October 1582 the Julian day number grows by one
/// from day to day.
pub proof fn lemma_days_within_month(year: int, month: int, day: int)
    requires
        is_valid_month(year, month),
        !(year == 1582 && month == 10),
        1 <= day <= days_in_month(year, month),
    ensures
        julian_day_number(year, month, day) == julian_day_number(year, month, 1) + day - 1,
{
    assert(is_gregorian_date(year, month, day) == is_gregorian_date(year, month, 1));
}

/// The 1st of the next month comes `days_in_month` days after the 1st of a
/// month (October 1582 included: its 1st and the 1st of November lie 21 days apart).
pub proof fn lemma_next_first_day(year: int, month: int)
    requires
        is_valid_month(year, month),
        !(year == 9999 && month == 12),
    ensures
        julian_day_number(shifted_month(year, month, 1).0, shifted_month(year, month, 1).1, 1)
            == julian_day_number(year, month, 1) + days_in_month(year, month),
{
    lemma_next_month(year, month);
    if month == 12 {
        let y = year + 4800;
        assert((y + 1) / 4 == y / 4 + (if (y + 1) % 4 == 0 { 1int } else { 0 }));
        assert((y + 1) / 100 == y / 100 + (if (y + 1) % 100 == 0 { 1int } else { 0 }));
        assert((y + 1) / 400 == y / 400 + (if (y + 1) % 400 == 0 { 1int } else { 0 }));
    } else if month == 2 {
        let y = year + 4799;
        assert((y + 1) / 4 == y / 4 + (if (y + 1) % 4 == 0 { 1int } else { 0 }));
        assert((y + 1) / 100 == y / 100 + (if (y + 1) % 100 == 0 { 1int } else { 0 }));
        assert((y + 1) / 400 == y / 400 + (if (y + 1) % 400 == 0 { 1int } else { 0 }));
    }
}

/// Every month has between 28 and 31 days, except the shortened October 1582.
pub proof fn lemma_days_in_month_range(year: int, month: int)
    ensures
        21 <= days_in_month(year, month) <= 31,
        !(year == 1582 && month == 10) ==> 28 <= days_in_month(year, month),
{
}

} // verus!
