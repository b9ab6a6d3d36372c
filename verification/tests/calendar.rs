//! Month grids, weekday titles, date keys, settings and calendar navigation.

use calendar::app_logic::calendar::{calendar_month_data, day_clicked, from_day_cell};
use calendar::calendar::message::CalendarMessage;
use calendar::calendar::model::CalendarModel as MvuModel;
use calendar::calendar::update::update;
use calendar::date_key::{date_key, date_key_i32};
use calendar::model::{
    build_month_view, get_weekday_names, month_view_available, today_ymd, try_build_month_view, DayCell,
};
use calendar::navigation::display_can_shift;
use calendar::models::calendar_model::keys_are_distinct;
use calendar::models::CalendarModel;
use calendar::platform::app_name;
use calendar::settings::AppSettings;
use calendar::state::CalendarState;
use calendar::view_model::CalendarViewModel as SundayViewModel;
use calendar::viewmodel::CalendarViewModel;

fn ymd(c: &DayCell) -> (isize, usize, usize) {
    (c.year, c.month, c.day)
}

#[test]
fn weekday_names_start_on_sunday() {
    assert_eq!(get_weekday_names(0), vec!["日", "一", "二", "三", "四", "五", "六"]);
}

#[test]
fn weekday_names_start_on_monday() {
    assert_eq!(get_weekday_names(1), vec!["一", "二", "三", "四", "五", "六", "日"]);
}

#[test]
fn weekday_names_repeat_every_week() {
    assert_eq!(get_weekday_names(3), get_weekday_names(10));
    assert_eq!(get_weekday_names(6)[0], "六");
}

#[test]
fn month_grid_march_2024_sunday_start() {
    let v = build_month_view(2024, 3, (2024, 3, 5), (2024, 3, 10), 0);
    assert_eq!(v.year, 2024);
    assert_eq!(v.month, 3);
    assert_eq!(v.days.len(), 42);
    // 1 March 2024 is a Friday: five days of February come first.
    assert_eq!(ymd(&v.days[0]), (2024, 2, 25));
    assert_eq!(ymd(&v.days[4]), (2024, 2, 29));
    assert_eq!(ymd(&v.days[5]), (2024, 3, 1));
    assert_eq!(ymd(&v.days[35]), (2024, 3, 31));
    assert_eq!(ymd(&v.days[36]), (2024, 4, 1));
    assert_eq!(ymd(&v.days[41]), (2024, 4, 6));
    assert!(!v.days[4].is_current_month);
    assert!(v.days[5].is_current_month);
    assert!(!v.days[36].is_current_month);
    // Sundays and Saturdays are weekend days.
    assert!(v.days[0].is_weekend);
    assert!(v.days[6].is_weekend);
    assert!(!v.days[5].is_weekend);
    assert!(v.days[9].is_selected);
    assert!(v.days[14].is_today);
    assert_eq!(v.days.iter().filter(|c| c.is_today).count(), 1);
    assert_eq!(v.days.iter().filter(|c| c.is_selected).count(), 1);
    assert_eq!(v.days.iter().filter(|c| c.is_current_month).count(), 31);
}

#[test]
fn month_grid_march_2024_monday_start() {
    let v = build_month_view(2024, 3, (2024, 3, 5), (2024, 3, 10), 1);
    assert_eq!(ymd(&v.days[0]), (2024, 2, 26));
    assert_eq!(ymd(&v.days[4]), (2024, 3, 1));
    assert_eq!(ymd(&v.days[41]), (2024, 4, 7));
}

#[test]
fn month_grid_across_years() {
    // 1 January 2000 is a Saturday.
    let v = build_month_view(2000, 1, (2000, 1, 1), (1999, 12, 31), 0);
    assert_eq!(ymd(&v.days[0]), (1999, 12, 26));
    assert_eq!(ymd(&v.days[5]), (1999, 12, 31));
    assert!(v.days[5].is_today);
    assert!(!v.days[5].is_current_month);
    assert_eq!(ymd(&v.days[6]), (2000, 1, 1));
    assert!(v.days[6].is_selected);
    assert_eq!(ymd(&v.days[41]), (2000, 2, 5));
    let d = build_month_view(2023, 12, (2023, 12, 1), (2023, 12, 1), 0);
    assert_eq!(ymd(&d.days[0]), (2023, 11, 26));
    assert_eq!(ymd(&d.days[41]), (2024, 1, 6));
}

#[test]
fn month_grid_after_the_gregorian_reform() {
    // October 1582 ends on the 31st; 1 November 1582 is a Monday.
    let v = build_month_view(1582, 11, (1582, 11, 1), (1582, 11, 1), 0);
    assert_eq!(ymd(&v.days[0]), (1582, 10, 31));
    assert!(v.days[0].is_weekend);
    assert_eq!(ymd(&v.days[1]), (1582, 11, 1));
}

#[test]
fn month_grid_leap_february() {
    // 1 February 2024 is a Thursday; February 2024 has 29 days.
    let v = build_month_view(2024, 2, (2024, 2, 1), (2024, 2, 1), 0);
    assert_eq!(ymd(&v.days[4]), (2024, 2, 1));
    assert_eq!(ymd(&v.days[32]), (2024, 2, 29));
    assert_eq!(ymd(&v.days[33]), (2024, 3, 1));
    let w = build_month_view(2023, 2, (2023, 2, 1), (2023, 2, 1), 0);
    // 1 February 2023 is a Wednesday; February 2023 has 28 days.
    assert_eq!(ymd(&w.days[30]), (2023, 2, 28));
    assert_eq!(ymd(&w.days[31]), (2023, 3, 1));
}

#[test]
fn month_grid_with_an_impossible_first_column() {
    assert!(try_build_month_view(2024, 3, (2024, 3, 1), (2024, 3, 1), 20).is_none());
    // The 1st of March 2024 is a Friday (5): 12 <= 5 + 7 still works.
    let v = try_build_month_view(2024, 3, (2024, 3, 1), (2024, 3, 1), 12).unwrap();
    assert_eq!(ymd(&v.days[0]), (2024, 3, 1));
    assert!(try_build_month_view(2024, 3, (2024, 3, 1), (2024, 3, 1), 13).is_none());
    assert!(try_build_month_view(2024, 3, (2024, 3, 1), (2024, 3, 1), 1).is_some());
}

#[test]
fn date_keys() {
    assert_eq!(date_key(2026, 1, 1), "2026-01-01");
    assert_eq!(date_key(2026, 12, 31), "2026-12-31");
    assert_eq!(date_key(999, 7, 4), "0999-07-04");
    assert_eq!(date_key(-5, 3, 4), "-005-03-04");
    assert_eq!(date_key(12345, 10, 100), "12345-10-100");
    assert_eq!(date_key_i32(2026, 2, 15), "2026-02-15");
    assert_eq!(date_key_i32(2026, -1, 5), "2026--1-05");
    assert_eq!(date_key_i32(0, 0, 0), "0000-00-00");
    for (y, m, d) in [(1, 1, 1), (2024, 2, 29), (9999, 12, 31), (-2024, 11, 9), (7, 7, 7)] {
        assert_eq!(date_key(y, m, d), format!("{:04}-{:02}-{:02}", y, m, d));
    }
}

#[test]
fn settings_are_clamped() {
    let s = AppSettings { dark_mode: true, accent_index: 20, week_start_day: 9, cell_size_index: -3 };
    let v = s.validate();
    assert!(v.dark_mode);
    assert_eq!(v.accent_index, 11);
    assert_eq!(v.week_start_day, 6);
    assert_eq!(v.cell_size_index, 0);
    let kept = AppSettings { dark_mode: false, accent_index: 5, week_start_day: 1, cell_size_index: 2 }.validate();
    assert_eq!(kept.accent_index, 5);
    assert_eq!(kept.week_start_day, 1);
    assert_eq!(kept.cell_size_index, 2);
    let low = AppSettings { dark_mode: false, accent_index: -1, week_start_day: -1, cell_size_index: 3 }.validate();
    assert_eq!(low.accent_index, 0);
    assert_eq!(low.week_start_day, 0);
    assert_eq!(low.cell_size_index, 2);
    let again = low.clone().validate();
    assert_eq!(again.accent_index, low.accent_index);
    assert_eq!(again.cell_size_index, low.cell_size_index);
}

#[test]
fn default_settings() {
    let s = AppSettings::default();
    assert!(!s.dark_mode);
    assert_eq!(s.accent_index, 0);
    assert_eq!(s.week_start_day, 0);
    assert_eq!(s.cell_size_index, 1);
}

#[test]
fn calendar_state_navigation() {
    let mut s = CalendarState::new(1, (2024, 1, 15));
    assert_eq!(s.display(), (2024, 1));
    assert_eq!(s.selected(), (2024, 1, 15));
    assert_eq!(s.today(), (2024, 1, 15));
    assert_eq!(s.week_start_day(), 1);
    s.prev_month();
    assert_eq!(s.display(), (2023, 12));
    s.next_month();
    assert_eq!(s.display(), (2024, 1));
    s.next_month();
    s.next_month();
    assert_eq!(s.display(), (2024, 3));
    s.select_day(2024, 0, 0);
    assert_eq!(s.selected(), (2024, 1, 1));
    s.select_day(2024, 3, 9);
    assert_eq!(s.selected(), (2024, 3, 9));
    s.go_today();
    assert_eq!(s.display(), (2024, 1));
    assert_eq!(s.selected(), (2024, 1, 15));
    s.set_week_start_day(0);
    assert_eq!(s.week_start_day(), 0);
    assert_eq!(s.today(), (2024, 1, 15));
}

#[test]
fn december_to_january_and_back() {
    let mut s = CalendarState::new(0, (2023, 12, 31));
    s.next_month();
    assert_eq!(s.display(), (2024, 1));
    s.prev_month();
    assert_eq!(s.display(), (2023, 12));
}

#[test]
fn update_applies_messages() {
    let mut m = MvuModel { display: (2024, 1), selected: (2024, 1, 2), today: (2024, 1, 2), week_start_day: 0 };
    update(&mut m, CalendarMessage::PrevMonth);
    assert_eq!(m.display, (2023, 12));
    update(&mut m, CalendarMessage::NextMonth);
    assert_eq!(m.display, (2024, 1));
    update(&mut m, CalendarMessage::SelectDay { year: 2024, month: 5, day: 0 });
    assert_eq!(m.selected, (2024, 5, 1));
    update(&mut m, CalendarMessage::NextMonth);
    update(&mut m, CalendarMessage::GoToday);
    assert_eq!(m.display, (2024, 1));
    assert_eq!(m.selected, (2024, 1, 2));
    update(&mut m, CalendarMessage::WeekStartChanged(1));
    assert_eq!(m.week_start_day, 1);
    let settings = AppSettings { dark_mode: false, accent_index: 0, week_start_day: 6, cell_size_index: 1 };
    update(&mut m, CalendarMessage::ApplySettings(settings));
    assert_eq!(m.week_start_day, 6);
}

#[test]
fn calendar_model_operations() {
    let mut m = CalendarModel::new();
    assert_eq!(m.display, (m.today.0, m.today.1));
    assert_eq!(m.selected, m.today);
    assert_eq!(m.week_start_day, 0);
    m.display = (2024, 6);
    m.shift_month(-7);
    assert_eq!(m.display, (2023, 11));
    m.shift_month(14);
    assert_eq!(m.display, (2025, 1));
    m.select_day(2025, 1, 20);
    assert_eq!(m.selected, (2025, 1, 20));
    m.go_today();
    assert_eq!(m.display, (m.today.0, m.today.1));
    let s = AppSettings { dark_mode: true, accent_index: 3, week_start_day: 1, cell_size_index: 0 };
    m.apply_settings(s);
    assert_eq!(m.week_start_day, 1);
    m.set_todo_dates(vec!["2024-03-05".to_string()]);
    assert_eq!(m.todo_dates, vec!["2024-03-05".to_string()]);
}

#[test]
fn todo_markers_and_clicks() {
    let mut m = CalendarModel::new();
    m.display = (2024, 3);
    m.selected = (2024, 3, 5);
    m.today = (2024, 3, 10);
    m.set_todo_dates(vec!["2024-03-05".to_string(), "2024-04-01".to_string()]);
    let cell = DayCell {
        year: 2024,
        month: 3,
        day: 5,
        is_today: false,
        is_selected: true,
        is_weekend: false,
        is_current_month: true,
    };
    let day = from_day_cell(cell, &m.todo_dates);
    assert!(day.has_todo);
    assert_eq!((day.year, day.month, day.day), (2024, 3, 5));
    assert!(day.is_selected);
    let other = from_day_cell(DayCell { day: 6, ..cell }, &m.todo_dates);
    assert!(!other.has_todo);

    let month = calendar_month_data(&m).unwrap();
    assert_eq!((month.year, month.month), (2024, 3));
    assert_eq!(month.days.len(), 42);
    let marked: Vec<(i32, i32, i32)> =
        month.days.iter().filter(|d| d.has_todo).map(|d| (d.year, d.month, d.day)).collect();
    assert_eq!(marked, vec![(2024, 3, 5), (2024, 4, 1)]);

    let key = day_clicked(&mut m, 2024, 3, 17);
    assert_eq!(key, "2024-03-17");
    assert_eq!(m.selected, (2024, 3, 17));
    assert_eq!(m.display, (2024, 3));
}

#[test]
fn view_models() {
    let mut vm = SundayViewModel::new();
    vm.go_today();
    vm.select_day(2024, 0, -3);
    vm.prev_month();
    vm.next_month();
    let s = AppSettings { dark_mode: false, accent_index: 0, week_start_day: 1, cell_size_index: 1 };
    let mut v = CalendarViewModel::from_settings(&s);
    assert_eq!(v.weekdays(), vec!["一", "二", "三", "四", "五", "六", "日"]);
    v.set_week_start_day(0);
    assert_eq!(v.weekdays()[0], "日");
    v.select_day(2024, 2, 29);
    v.prev_month();
    v.next_month();
    v.go_today();
    let today = today_ymd();
    if today.0 >= 2 && today.0 <= 9998 && today.0 != 1582 {
        let grid = v.build_month_vm().unwrap();
        assert_eq!((grid.year, grid.month), (today.0, today.1));
        assert_eq!(grid.days.iter().filter(|c| c.is_today).count(), 1);
        let sunday = vm.month_view();
        assert_eq!(sunday.days.len(), 42);
    }
}

#[test]
fn today_is_a_date() {
    let (_, m, d) = today_ymd();
    assert!((1..=12).contains(&m));
    assert!((1..=31).contains(&d));
}

#[test]
fn application_name() {
    assert_eq!(app_name(), "calendar");
}

#[test]
fn going_to_today_twice_is_going_once() {
    let mut s = CalendarState::new(0, (2025, 7, 4));
    s.next_month();
    s.select_day(2025, 8, 20);
    s.go_today();
    let once = (s.display(), s.selected());
    s.go_today();
    assert_eq!((s.display(), s.selected()), once);
    assert_eq!(once, ((2025, 7), (2025, 7, 4)));
}

#[test]
fn distinct_dates_have_distinct_keys() {
    let dates = [(2024, 1, 11), (2024, 11, 1), (2024, 1, 1), (2041, 1, 1), (204, 11, 1)];
    for (i, a) in dates.iter().enumerate() {
        for (j, b) in dates.iter().enumerate() {
            assert_eq!(date_key(a.0, a.1, a.2) == date_key(b.0, b.1, b.2), i == j);
        }
        assert_eq!(date_key(a.0, a.1, a.2).len(), 10);
    }
}

#[test]
fn grid_availability() {
    assert!(month_view_available(2024, 3));
    assert!(!month_view_available(1, 1));
    assert!(!month_view_available(9999, 12));
    assert!(!month_view_available(1582, 10));
    assert!(!month_view_available(1582, 9));
    assert!(month_view_available(1582, 11));
    assert!(!month_view_available(2024, 13));
    assert!(display_can_shift((2024, 3), -1));
    assert!(!display_can_shift((1, 1), -1));
    assert!(display_can_shift((1, 2), -1));
    assert!(!display_can_shift((9999, 12), 1));
    assert!(display_can_shift((2024, 3), 120));
    assert!(!display_can_shift((2024, 0), 1));
    assert!(!display_can_shift((2024, 3), isize::MAX));
}

/// Day of the week (0 Sunday) by chrono's proleptic Gregorian calendar.
fn weekday_of(y: isize, m: usize, d: usize) -> usize {
    let date = chrono::NaiveDate::from_ymd_opt(y as i32, m as u32, d as u32).unwrap();
    chrono::Datelike::weekday(&date).num_days_from_sunday() as usize
}

#[test]
fn every_cell_sits_under_its_weekday() {
    for (y, m) in [(2024, 3), (2000, 1), (2023, 12), (2024, 2), (2026, 9)] {
        for start in 0..7usize {
            let v = build_month_view(y, m, (y, m, 1), (y, m, 1), start);
            let titles = get_weekday_names(start);
            let all = get_weekday_names(0);
            for (i, c) in v.days.iter().enumerate() {
                let w = weekday_of(c.year, c.month, c.day);
                assert_eq!(w, (start + i % 7) % 7);
                assert_eq!(titles[i % 7], all[w]);
                assert_eq!(c.is_weekend, w == 0 || w == 6);
            }
        }
    }
}

#[test]
fn november_1582_starts_with_the_end_of_october() {
    // The days before 1 November 1582 are 26 to 31 October (Gregorian);
    // every cell sits under its weekday.
    for start in 0..7usize {
        let v = build_month_view(1582, 11, (1582, 11, 1), (1582, 11, 1), start);
        for (i, c) in v.days.iter().enumerate() {
            assert_eq!(weekday_of(c.year, c.month, c.day), (start + i % 7) % 7);
            if c.month == 10 {
                assert!(c.day >= 26);
            }
        }
    }
    let v = build_month_view(1582, 11, (1582, 11, 1), (1582, 11, 1), 3);
    // 1 November 1582 is a Monday: with Wednesday first, five October days lead.
    assert_eq!(ymd(&v.days[0]), (1582, 10, 27));
    assert_eq!(ymd(&v.days[4]), (1582, 10, 31));
    assert_eq!(ymd(&v.days[5]), (1582, 11, 1));
}

#[test]
fn constructors_with_a_given_today() {
    let m = MvuModel::with_today((2024, 5, 17));
    assert_eq!((m.display, m.selected, m.today, m.week_start_day), ((2024, 5), (2024, 5, 17), (2024, 5, 17), 0));
    let c = CalendarModel::with_today((2024, 5, 17));
    assert_eq!((c.display, c.selected, c.today, c.week_start_day), ((2024, 5), (2024, 5, 17), (2024, 5, 17), 0));
    assert!(c.todo_dates.is_empty());
    let s = SundayViewModel::with_today((2024, 5, 17));
    let grid = s.month_view();
    assert_eq!((grid.year, grid.month), (2024, 5));
    assert_eq!(grid.days.iter().filter(|d| d.is_today && d.is_selected).count(), 1);
    let settings = AppSettings { dark_mode: false, accent_index: 0, week_start_day: 1, cell_size_index: 1 };
    let v = CalendarViewModel::from_settings_on(&settings, (2024, 5, 17));
    assert_eq!(v.display(), (2024, 5));
    assert_eq!(v.week_start_day(), 1);
    let g = v.build_month_vm().unwrap();
    // 1 May 2024 is a Wednesday: with Monday first, two April days lead.
    assert_eq!(ymd(&g.days[0]), (2024, 4, 29));
}

#[test]
fn todo_date_keys_are_a_set() {
    let a = vec!["2024-01-01".to_string(), "2024-01-02".to_string()];
    let b = vec!["2024-01-01".to_string(), "2024-01-02".to_string(), "2024-01-01".to_string()];
    assert!(keys_are_distinct(&a));
    assert!(!keys_are_distinct(&b));
    assert!(keys_are_distinct(&Vec::new()));
}
