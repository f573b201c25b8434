use chrono::{Datelike, Local, NaiveDate, Weekday};
use liw_core::calendar::{week_start, Date, MAX_YEAR, MIN_YEAR};
use liw_core::modes::{Mode, WeekGrid, WeekStatus};

fn date(year: i32, month: u32, day: u32) -> Date {
    Date::from_ymd_opt(year, month, day).unwrap()
}

fn today() -> Date {
    let now = Local::now().date_naive();
    date(now.year(), now.month(), now.day())
}

#[test]
fn test_week_start() {
    // Test with a Wednesday
    let wed = date(2024, 1, 10);
    let monday = week_start(wed);
    assert_eq!(monday.weekday(), Weekday::Mon.num_days_from_monday());
    assert_eq!(monday, date(2024, 1, 8));
}

#[test]
fn test_life_mode() {
    let dob = date(1990, 1, 1);
    let mode = Mode::Life { dob, lifespan_years: 80 };
    let grid = WeekGrid::calculate(&mode, today());

    assert!(grid.total_weeks >= 4160 && grid.total_weeks <= 4200);
    assert_eq!(grid.columns, 52);
}

#[test]
fn test_year_end_mode() {
    let grid = WeekGrid::calculate(&Mode::YearEnd, today());

    assert!(grid.total_weeks > 0);
    assert!(grid.total_weeks <= 53);
}

#[test]
fn year_end_from_a_wednesday_in_january() {
    let grid = WeekGrid::calculate(&Mode::YearEnd, date(2024, 1, 10));
    assert_eq!(grid.weeks[0].start_date, date(2024, 1, 8));
    let last = grid.weeks.last().unwrap();
    assert_eq!(last.start_date, date(2024, 12, 30));
    assert_eq!(last.start_date, week_start(date(2024, 12, 31)));
    assert_eq!(grid.total_weeks, 52);
    assert_eq!(grid.rows, 1);
    assert_eq!(grid.columns, 52);
    assert_eq!(grid.current_week_index, Some(0));
    assert_eq!(grid.elapsed_weeks, 0);
    assert_eq!(grid.weeks[0].status, WeekStatus::Current);
    assert_eq!(grid.weeks[1].status, WeekStatus::Future);
    assert_eq!(grid.weeks[0].week_of_year, 2);
    assert_eq!(grid.weeks[0].year, 2024);
    assert_eq!(grid.title, "Weeks Remaining in 2024");
    assert_eq!(grid.subtitle, "51 weeks to go");
}

#[test]
fn dates_agree_with_chrono() {
    let d = date(2024, 2, 29);
    let n = NaiveDate::from_ymd_opt(2024, 2, 29).unwrap();
    assert_eq!(d.day_number(), n.num_days_from_ce());
    assert_eq!(Date::from_day_number(d.day_number()), Some(d));
    assert_eq!(d.weekday(), n.weekday().num_days_from_monday());
    assert_eq!(d.iso_week(), n.iso_week().week());
}

#[test]
fn weeks_are_seven_days_apart_and_at_most_one_is_current() {
    let cases = [
        (Mode::NextMonths { months: 6 }, date(2024, 5, 17)),
        (Mode::NextMonths { months: 0 }, date(2024, 5, 17)),
        (Mode::NextMonths { months: 255 }, date(2024, 1, 31)),
        (Mode::YearEnd, date(2024, 12, 31)),
        (Mode::YearEnd, date(2021, 1, 1)),
        (Mode::Life { dob: date(1990, 1, 1), lifespan_years: 80 }, date(2024, 5, 17)),
        (Mode::Life { dob: date(2000, 2, 29), lifespan_years: 0 }, date(1999, 1, 1)),
        (Mode::Life { dob: date(2000, 2, 29), lifespan_years: 3 }, date(2100, 1, 1)),
    ];
    for (mode, today) in cases {
        let grid = WeekGrid::calculate(&mode, today);
        assert_eq!(grid.total_weeks, grid.weeks.len());
        assert!(grid.total_weeks >= 1);
        for pair in grid.weeks.windows(2) {
            assert_eq!(pair[1].start_date.day_number() - pair[0].start_date.day_number(), 7);
        }
        let current: Vec<usize> = (0..grid.weeks.len())
            .filter(|i| grid.weeks[*i].status == WeekStatus::Current)
            .collect();
        assert!(current.len() <= 1);
        assert_eq!(grid.current_week_index, current.first().copied());
        let past = grid.weeks.iter().filter(|w| w.status == WeekStatus::Past).count();
        assert_eq!(grid.elapsed_weeks, past);
        assert!(grid.columns * grid.rows >= grid.total_weeks);
        assert!(grid.columns >= 1 && grid.rows >= 1);
        for week in &grid.weeks {
            assert_eq!(week.start_date.weekday(), 0);
            assert_eq!(week.year, week.start_date.year());
            assert_eq!(week.week_of_year, week.start_date.iso_week());
            let start = week.start_date.day_number();
            let wanted = if start <= today.day_number() && today.day_number() < start + 7 {
                WeekStatus::Current
            } else if start < today.day_number() {
                WeekStatus::Past
            } else {
                WeekStatus::Future
            };
            assert_eq!(week.status, wanted);
        }
        match mode {
            Mode::YearEnd => assert_eq!((grid.rows, grid.columns), (1, grid.total_weeks)),
            Mode::Life { .. } => {
                assert_eq!(grid.columns, 52);
                assert_eq!(grid.rows, (grid.total_weeks + 51) / 52);
            }
            Mode::NextMonths { .. } => {
                let c = grid.columns;
                assert!(c * c >= grid.total_weeks && (c - 1) * (c - 1) < grid.total_weeks);
                assert_eq!(grid.rows, (grid.total_weeks + c - 1) / c);
            }
        }
    }
}

#[test]
fn life_of_eighty_years_from_1990() {
    let mode = Mode::Life { dob: date(1990, 1, 1), lifespan_years: 80 };
    let grid = WeekGrid::calculate(&mode, date(2024, 5, 17));
    assert_eq!(grid.weeks[0].start_date, date(1990, 1, 1));
    assert_eq!(grid.weeks.last().unwrap().start_date, date(2069, 12, 30));
    assert_eq!(grid.total_weeks, 4175);
    assert!(grid.total_weeks >= 4160 && grid.total_weeks <= 4200);
    assert_eq!(grid.columns, 52);
    assert_eq!(grid.rows, 81);
    assert_eq!(grid.current_week_index, Some(1793));
    assert_eq!(grid.elapsed_weeks, 1793);
    assert_eq!(grid.title, "Life in Weeks (Age 34)");
    assert_eq!(grid.subtitle, "1793 of 4175 weeks lived (42%) - 2381 remaining");
}

#[test]
fn years_of_a_life_are_marked_on_their_first_week() {
    let mode = Mode::Life { dob: date(2000, 1, 1), lifespan_years: 2 };
    let grid = WeekGrid::calculate(&mode, date(2000, 6, 1));
    // The first week begins in 1999 and carries no label; the next begins in 2000.
    assert_eq!(grid.weeks[0].start_date, date(1999, 12, 27));
    assert_eq!(grid.weeks[0].label, None);
    assert_eq!(grid.weeks[1].label, Some("2000".to_string()));
    assert_eq!(grid.weeks[2].label, None);
    for i in 1..grid.weeks.len() {
        let wanted = if grid.weeks[i].year != grid.weeks[i - 1].year {
            Some(grid.weeks[i].year.to_string())
        } else {
            None
        };
        assert_eq!(grid.weeks[i].label, wanted);
    }
    let labels: Vec<&str> = grid.weeks.iter().filter_map(|w| w.label.as_deref()).collect();
    assert_eq!(labels, ["2000", "2001"]);
    let plain = WeekGrid::calculate(&Mode::NextMonths { months: 24 }, date(2000, 6, 1));
    assert!(plain.weeks.iter().all(|w| w.label.is_none()));
}

#[test]
fn next_months_are_laid_out_close_to_a_square() {
    let grid = WeekGrid::calculate(&Mode::NextMonths { months: 6 }, date(2024, 5, 17));
    assert_eq!(grid.weeks[0].start_date, date(2024, 5, 13));
    assert_eq!(grid.weeks.last().unwrap().start_date, date(2024, 11, 11));
    assert_eq!(grid.total_weeks, 27);
    assert_eq!((grid.columns, grid.rows), (6, 5));
    assert_eq!(grid.title, "Next 6 Months");
    assert_eq!(grid.subtitle, "26 weeks remaining");
    let one = WeekGrid::calculate(&Mode::NextMonths { months: 0 }, date(2024, 5, 17));
    assert_eq!(one.total_weeks, 1);
    assert_eq!((one.columns, one.rows), (1, 1));
    assert_eq!(one.subtitle, "0 weeks remaining");
}

#[test]
fn age_is_counted_in_years_of_365_days_rounded_down() {
    let life = |today| {
        WeekGrid::calculate(&Mode::Life { dob: date(2000, 1, 1), lifespan_years: 1 }, today).title
    };
    assert_eq!(life(date(2000, 1, 1)), "Life in Weeks (Age 0)");
    assert_eq!(life(date(2000, 12, 30)), "Life in Weeks (Age 0)");
    assert_eq!(life(date(2000, 12, 31)), "Life in Weeks (Age 1)");
    assert_eq!(life(date(1999, 12, 31)), "Life in Weeks (Age -1)");
    assert_eq!(life(date(1999, 1, 1)), "Life in Weeks (Age -1)");
    assert_eq!(life(date(1998, 12, 31)), "Life in Weeks (Age -2)");
}

#[test]
fn windows_are_named() {
    let dob = date(1990, 1, 1);
    let named = |name: &str, dob, lifespan, months| Mode::from_str_with_params(name, dob, lifespan, months);
    for name in ["next-months", "next_months", "months", "MONTHS", "Next-Months"] {
        assert!(matches!(named(name, None, None, None), Ok(Mode::NextMonths { months: 6 })));
        assert!(matches!(named(name, None, Some(1), Some(9)), Ok(Mode::NextMonths { months: 9 })));
    }
    for name in ["year-end", "year_end", "year", "Year"] {
        assert!(matches!(named(name, Some(dob), Some(1), Some(2)), Ok(Mode::YearEnd)));
    }
    for name in ["life", "life-weeks", "life_weeks", "LIFE"] {
        assert!(matches!(
            named(name, Some(dob), None, None),
            Ok(Mode::Life { dob: d, lifespan_years: 80 }) if d == dob
        ));
        assert!(matches!(
            named(name, Some(dob), Some(95), Some(2)),
            Ok(Mode::Life { lifespan_years: 95, .. })
        ));
        assert_eq!(named(name, None, Some(95), None).unwrap_err(), "DOB is required for life mode");
    }
    assert_eq!(
        named("Decade", Some(dob), None, None).unwrap_err(),
        "Unknown mode: Decade. Options: next-months, year-end, life"
    );
    assert_eq!(
        named("", None, None, None).unwrap_err(),
        "Unknown mode: . Options: next-months, year-end, life"
    );
    assert!(Mode::from_lowercase("LIFE", "LIFE", Some(dob), None, None).is_err());
}

#[test]
fn windows_beyond_the_last_date_are_refused() {
    let late = date(MAX_YEAR, 6, 1);
    assert!(Mode::NextMonths { months: 6 }.supports(late));
    assert!(!Mode::NextMonths { months: 7 }.supports(late));
    assert!(Mode::YearEnd.supports(late));
    assert!(Mode::Life { dob: date(MAX_YEAR - 80, 1, 1), lifespan_years: 80 }.supports(late));
    assert!(!Mode::Life { dob: date(MAX_YEAR - 79, 1, 1), lifespan_years: 80 }.supports(late));
    assert!(WeekGrid::try_calculate(&Mode::NextMonths { months: 7 }, late).is_none());
    assert!(WeekGrid::try_calculate(&Mode::NextMonths { months: 6 }, late).is_some());
    let early = date(MIN_YEAR, 1, 1);
    assert_eq!(Mode::YearEnd.supports(early), early.weekday() == 0);
}
