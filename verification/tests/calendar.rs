use chrono::{Datelike, Duration, NaiveDate};
use liw_core::calendar::{
    add_months, add_years, days_in_month, is_leap_year, week_start, Date, MAX_DAY_NUMBER,
    MAX_YEAR, MIN_DAY_NUMBER, MIN_YEAR,
};

fn date(year: i32, month: u32, day: u32) -> Date {
    Date::from_ymd_opt(year, month, day).unwrap()
}

#[test]
fn leap_years_follow_the_gregorian_rule() {
    assert!(is_leap_year(2024));
    assert!(!is_leap_year(2023));
    assert!(!is_leap_year(1900));
    assert!(is_leap_year(2000));
    assert!(is_leap_year(0));
    assert!(is_leap_year(-4));
    assert!(!is_leap_year(-100));
    assert!(is_leap_year(-400));
    assert!(!is_leap_year(i32::MAX));
    assert!(is_leap_year(i32::MIN));
}

#[test]
fn months_have_their_lengths() {
    let lengths = [31, 28, 31, 30, 31, 30, 31, 31, 30, 31, 30, 31];
    for month in 1..=12u32 {
        assert_eq!(days_in_month(2023, month), lengths[month as usize - 1]);
    }
    assert_eq!(days_in_month(2024, 2), 29);
    assert_eq!(days_in_month(1900, 2), 28);
    assert_eq!(days_in_month(2000, 2), 29);
    assert_eq!(days_in_month(2024, 0), 30);
    assert_eq!(days_in_month(2024, 13), 30);
}

#[test]
fn only_days_of_the_calendar_are_dates() {
    assert!(Date::from_ymd_opt(2023, 2, 29).is_none());
    assert!(Date::from_ymd_opt(2024, 2, 29).is_some());
    assert!(Date::from_ymd_opt(2024, 4, 31).is_none());
    assert!(Date::from_ymd_opt(2024, 0, 1).is_none());
    assert!(Date::from_ymd_opt(2024, 13, 1).is_none());
    assert!(Date::from_ymd_opt(2024, 1, 0).is_none());
    assert!(Date::from_ymd_opt(MIN_YEAR, 1, 1).is_some());
    assert!(Date::from_ymd_opt(MIN_YEAR - 1, 12, 31).is_none());
    assert!(Date::from_ymd_opt(MAX_YEAR, 12, 31).is_some());
    assert!(Date::from_ymd_opt(MAX_YEAR + 1, 1, 1).is_none());
    let d = date(2024, 2, 29);
    assert_eq!((d.year(), d.month(), d.day()), (2024, 2, 29));
}

#[test]
fn the_range_of_dates_is_that_of_chrono() {
    assert_eq!(NaiveDate::MIN.year(), MIN_YEAR);
    assert_eq!(NaiveDate::MAX.year(), MAX_YEAR);
    assert_eq!(NaiveDate::MIN.num_days_from_ce(), MIN_DAY_NUMBER);
    assert_eq!(NaiveDate::MAX.num_days_from_ce(), MAX_DAY_NUMBER);
    assert_eq!(date(MIN_YEAR, 1, 1).day_number(), MIN_DAY_NUMBER);
    assert_eq!(date(MAX_YEAR, 12, 31).day_number(), MAX_DAY_NUMBER);
    assert_eq!(Date::from_day_number(MIN_DAY_NUMBER), Some(date(MIN_YEAR, 1, 1)));
    assert_eq!(Date::from_day_number(MAX_DAY_NUMBER), Some(date(MAX_YEAR, 12, 31)));
    assert_eq!(Date::from_day_number(MIN_DAY_NUMBER - 1), None);
    assert_eq!(Date::from_day_number(MAX_DAY_NUMBER + 1), None);
}

/// The day number as the library states it in closed form.
fn day_number(year: i64, month: i64, day: i64) -> i64 {
    let y = year - 1;
    let mut days = 365 * y + y.div_euclid(4) - y.div_euclid(100) + y.div_euclid(400);
    for m in 1..month {
        days += days_in_month(year as i32, m as u32) as i64;
    }
    days + day
}

#[test]
fn day_numbers_weekdays_and_dates_agree_with_the_closed_form() {
    assert_eq!(date(1, 1, 1).day_number(), 1);
    assert_eq!(date(0, 12, 31).day_number(), 0);
    assert_eq!(date(0, 1, 1).day_number(), -365);
    assert_eq!(date(1970, 1, 1).day_number(), 719_163);
    assert_eq!(date(1, 1, 1).weekday(), 0);
    assert_eq!(date(1970, 1, 1).weekday(), 3);
    let mut n = NaiveDate::from_ymd_opt(-420, 12, 25).unwrap();
    for step in 0..4000 {
        let d = date(n.year(), n.month(), n.day());
        let wanted = day_number(n.year() as i64, n.month() as i64, n.day() as i64);
        assert_eq!(d.day_number() as i64, wanted);
        assert_eq!(d.weekday() as i64, (wanted - 1).rem_euclid(7));
        assert_eq!(Date::from_day_number(wanted as i32), Some(d));
        assert_eq!(d.iso_week(), n.iso_week().week());
        n = n + Duration::days(if step % 7 == 0 { 400 } else { 211 });
    }
}

#[test]
fn week_start_is_the_monday_on_or_before() {
    for offset in 0..7 {
        let day = date(2024, 1, 8 + offset);
        assert_eq!(week_start(day), date(2024, 1, 8));
    }
    assert_eq!(week_start(date(2024, 1, 7)), date(2024, 1, 1));
    assert_eq!(week_start(date(2023, 1, 1)), date(2022, 12, 26));
    assert_eq!(week_start(date(2024, 3, 3)), date(2024, 2, 26));
}

#[test]
fn week_start_taken_twice_is_week_start() {
    let mut n = NaiveDate::from_ymd_opt(1999, 12, 20).unwrap();
    for _ in 0..60 {
        let d = date(n.year(), n.month(), n.day());
        let monday = week_start(d);
        assert_eq!(week_start(monday), monday);
        assert_eq!(monday.weekday(), 0);
        assert!(monday.day_number() <= d.day_number());
        assert!(d.day_number() < monday.day_number() + 7);
        n = n + Duration::days(1);
    }
}

#[test]
fn adding_months_clamps_the_day() {
    assert_eq!(add_months(date(2023, 1, 31), 1), date(2023, 2, 28));
    assert_eq!(add_months(date(2024, 1, 31), 1), date(2024, 2, 29));
    assert_eq!(add_months(date(2024, 3, 31), 1), date(2024, 4, 30));
    assert_eq!(add_months(date(2024, 1, 15), 0), date(2024, 1, 15));
    assert_eq!(add_months(date(2024, 1, 15), 11), date(2024, 12, 15));
    assert_eq!(add_months(date(2024, 1, 15), 12), date(2025, 1, 15));
    assert_eq!(add_months(date(2024, 12, 31), 2), date(2025, 2, 28));
    assert_eq!(add_months(date(2024, 11, 30), 255), date(2046, 2, 28));
    assert_eq!(add_months(date(2024, 3, 31), -1), date(2024, 2, 29));
    assert_eq!(add_months(date(2024, 3, 31), -2), date(2024, 1, 31));
}

#[test]
fn adding_years_clamps_the_day() {
    assert_eq!(add_years(date(2000, 2, 29), 80), date(2080, 2, 29));
    assert_eq!(add_years(date(2000, 2, 29), 81), date(2081, 2, 28));
    assert_eq!(add_years(date(2000, 2, 29), 100), date(2100, 2, 28));
    assert_eq!(add_years(date(2000, 2, 29), 0), date(2000, 2, 29));
    assert_eq!(add_years(date(1990, 1, 1), 80), date(2070, 1, 1));
    assert_eq!(add_years(date(2024, 12, 31), -24), date(2000, 12, 31));
    // Eighty years from a leap day lead to February 28 where the year reached is no
    // leap year.
    assert_eq!(add_years(date(2020, 2, 29), 80), date(2100, 2, 28));
}

#[test]
fn dates_are_read_and_written_as_chrono_does() {
    assert_eq!(Date::parse("2024-02-29"), Some(date(2024, 2, 29)));
    assert_eq!(Date::parse("2023-02-29"), None);
    assert_eq!(Date::parse("29.02.2024"), None);
    assert_eq!(Date::parse(""), None);
    assert_eq!(date(2024, 2, 9).format(), "2024-02-09");
    assert_eq!(date(987, 12, 31).format(), "0987-12-31");
}
