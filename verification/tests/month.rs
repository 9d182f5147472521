use herald::tui::model::month::{days_in_month, is_leap_year, month_grid, month_name, Date};

#[test]
fn known_weekdays() {
    let d = Date { year: 2026, month: 7, day: 13 };
    assert_eq!(d.weekday(), 0);
    let epoch = Date { year: 1970, month: 1, day: 1 };
    assert_eq!(epoch.weekday(), 3);
}

#[test]
fn leap_years() {
    assert!(is_leap_year(2024));
    assert!(!is_leap_year(2026));
    assert!(!is_leap_year(1900));
    assert!(is_leap_year(2000));
    assert_eq!(days_in_month(2024, 2), 29);
    assert_eq!(days_in_month(2026, 2), 28);
}

#[test]
fn grid_july_2026() {
    let g = month_grid(2026, 7);
    assert_eq!(g[0][2], Some(1));
    assert_eq!(g[0][0], None);
    assert_eq!(g[1][0], Some(6));
    assert_eq!(g[2][0], Some(13));
    let last = g.last().unwrap();
    assert!(last.contains(&Some(31)));
}

#[test]
fn add_days_crosses_month_and_year() {
    let d = Date { year: 2026, month: 12, day: 31 };
    assert_eq!(d.add_days(1), Date { year: 2027, month: 1, day: 1 });
    assert_eq!(d.add_days(-31), Date { year: 2026, month: 11, day: 30 });
}

#[test]
fn add_months_clamps_day() {
    let d = Date { year: 2026, month: 1, day: 31 };
    assert_eq!(d.add_months(1), Date { year: 2026, month: 2, day: 28 });
    assert_eq!(d.add_months(-1), Date { year: 2025, month: 12, day: 31 });
    assert_eq!(d.add_months(12).year, 2027);
}

#[test]
fn iso_round_trip() {
    let d = Date::from_iso("2026-07-13T09:00:00").unwrap();
    assert_eq!(d.iso(), "2026-07-13");
    assert!(Date::from_iso("2026-13-01").is_none());
    assert!(Date::from_iso("2026-02-30").is_none());
    assert!(Date::from_iso("garbage").is_none());
}

#[test]
fn month_names_and_out_of_range() {
    assert_eq!(month_name(1), "January");
    assert_eq!(month_name(12), "December");
    assert_eq!(month_name(0), "?");
    assert_eq!(month_name(13), "?");
}

#[test]
fn add_zero_days_and_compose() {
    let d = Date { year: 2024, month: 2, day: 29 };
    assert_eq!(d.add_days(0), d);
    assert_eq!(d.add_days(10).add_days(-3), d.add_days(7));
    assert_eq!(d.add_days(1), Date { year: 2024, month: 3, day: 1 });
}

#[test]
fn next_day_is_next_weekday() {
    let d = Date { year: 2026, month: 7, day: 19 };
    assert_eq!(d.weekday(), 6);
    assert_eq!(d.add_days(1).weekday(), 0);
}

#[test]
fn negative_years_format_with_sign() {
    let d = Date { year: -1, month: 3, day: 4 };
    assert_eq!(d.iso(), "-001-03-04");
}

#[test]
fn today_is_a_valid_date() {
    let t = Date::today();
    assert!(t.month >= 1 && t.month <= 12);
    assert!(t.day >= 1 && t.day <= days_in_month(t.year, t.month));
}

#[test]
fn moving_days_shifts_the_weekday_and_comes_back() {
    let d = Date { year: 2026, month: 12, day: 31 };
    for delta in [-400i64, -31, -1, 0, 1, 6, 7, 10, 365, 1000] {
        let moved = d.add_days(delta);
        assert_eq!(i64::from(moved.weekday()), (i64::from(d.weekday()) + delta).rem_euclid(7));
        assert_eq!(moved.add_days(-delta), d);
    }
    assert_eq!(d.add_days(1), Date { year: 2027, month: 1, day: 1 });
    assert_eq!(d.add_days(-31), Date { year: 2026, month: 11, day: 30 });
}
