use base64::Engine;
use liw_core::calendar::Date;
use liw_core::config::{Config, Theme};
use liw_core::modes::{Mode, WeekGrid};
use liw_core::preview::{draw, generate_preview, ConfigState, GenerateRequest, GenerateResponse, Job};

fn date(year: i32, month: u32, day: u32) -> Date {
    Date::from_ymd_opt(year, month, day).unwrap()
}

fn request(mode: &str) -> GenerateRequest {
    GenerateRequest {
        mode: mode.to_string(),
        dob: None,
        lifespan: None,
        months: None,
        theme: None,
        width: None,
        height: None,
    }
}

#[test]
fn a_request_is_settled_against_the_settings() {
    let mut config = Config::default();
    config.dob = Some(date(1980, 3, 4));
    config.lifespan_years = 70;
    config.next_months = 9;
    config.theme = Theme::SunsetGradient;

    let bare = request("LIFE");
    let dob = bare.date_of_birth(&config);
    assert_eq!(dob, Some(date(1980, 3, 4)));
    let job = bare.resolve(&config, dob).unwrap();
    assert!(matches!(job.mode, Mode::Life { dob, lifespan_years: 70 } if dob == date(1980, 3, 4)));
    assert_eq!(job.theme, Theme::SunsetGradient);
    assert_eq!((job.width, job.height), (1920, 1080));

    let mut full = request("months");
    full.dob = Some("1999-09-09".to_string());
    full.lifespan = Some(3);
    full.months = Some(2);
    full.theme = Some("Minimal".to_string());
    full.width = Some(800);
    full.height = Some(600);
    let dob = full.date_of_birth(&config);
    assert_eq!(dob, Some(date(1999, 9, 9)));
    let job = full.resolve(&config, dob).unwrap();
    assert!(matches!(job.mode, Mode::NextMonths { months: 2 }));
    assert_eq!(job.theme, Theme::MinimalInk);
    assert_eq!((job.width, job.height), (800, 600));

    // A date of birth that cannot be read counts as none.
    let mut broken = request("life");
    broken.dob = Some("yesterday".to_string());
    assert_eq!(broken.date_of_birth(&config), None);
    assert_eq!(
        broken.resolve(&config, None).unwrap_err(),
        "DOB is required for life mode"
    );
    assert_eq!(
        request("decade").resolve(&config, None).unwrap_err(),
        "Unknown mode: decade. Options: next-months, year-end, life"
    );
}

#[test]
fn a_response_holds_the_figures_of_the_grid() {
    let grid = WeekGrid::calculate(
        &Mode::Life { dob: date(2000, 1, 1), lifespan_years: 1 },
        date(2000, 3, 1),
    );
    let (total, elapsed) = (grid.total_weeks, grid.elapsed_weeks);
    assert_eq!((total, elapsed), (54, 9));
    let response = GenerateResponse::new(grid.clone(), "abc".to_string());
    assert_eq!(response.title, grid.title);
    assert_eq!(response.subtitle, grid.subtitle);
    assert_eq!(response.total_weeks, 54);
    assert_eq!(response.elapsed_weeks, 9);
    assert_eq!(response.remaining_weeks, 44);
    assert_eq!((response.columns, response.rows), (52, 2));
    assert_eq!(response.image_base64, "abc");

    let over = WeekGrid::calculate(
        &Mode::Life { dob: date(2000, 1, 1), lifespan_years: 1 },
        date(2020, 1, 1),
    );
    assert_eq!(over.elapsed_weeks, 54);
    assert_eq!(GenerateResponse::new(over, String::new()).remaining_weeks, 0);
}

#[test]
fn the_settings_are_shown_with_the_short_name_of_the_theme() {
    let mut config = Config::default();
    let state = ConfigState::new(&config, true);
    assert_eq!(state.dob, None);
    assert_eq!(state.theme, "dark");
    assert_eq!(state.lifespan_years, 80);
    assert_eq!((state.screen_width, state.screen_height), (1920, 1080));
    assert_eq!(state.default_mode, "year-end");
    assert_eq!(state.next_months, 6);
    assert!(state.schedule_installed);
    config.dob = Some(date(1990, 1, 2));
    config.theme = Theme::TerminalGreen;
    let state = ConfigState::new(&config, false);
    assert_eq!(state.dob, Some("1990-01-02".to_string()));
    assert_eq!(state.theme, "terminal");
    assert!(!state.schedule_installed);
}

#[test]
fn a_preview_is_a_png_file_in_base64() {
    let mut ask = request("year-end");
    ask.width = Some(64);
    ask.height = Some(48);
    let response = generate_preview(&ask, &Config::default(), date(2024, 12, 10)).unwrap();
    assert_eq!(response.total_weeks, 4);
    assert_eq!(response.elapsed_weeks, 0);
    assert_eq!(response.remaining_weeks, 3);
    assert_eq!((response.columns, response.rows), (4, 1));
    assert_eq!(response.title, "Weeks Remaining in 2024");
    let file = base64::engine::general_purpose::STANDARD.decode(&response.image_base64).unwrap();
    assert_eq!(&file[..8], b"\x89PNG\r\n\x1a\n");
    let decoded = image::load_from_memory(&file).unwrap().into_rgba8();
    assert_eq!(decoded.dimensions(), (64, 48));
    let job = Job { mode: Mode::YearEnd, theme: Theme::SoftDark, width: 64, height: 48 };
    let (_, canvas) = draw(&job, date(2024, 12, 10)).unwrap();
    assert_eq!(decoded.into_raw(), canvas.into_bytes());
}

#[test]
fn what_cannot_be_drawn_is_refused() {
    let far = Date::from_ymd_opt(liw_core::calendar::MAX_YEAR, 6, 1).unwrap();
    let job = Job {
        mode: Mode::NextMonths { months: 12 },
        theme: Theme::SoftDark,
        width: 10,
        height: 10,
    };
    assert_eq!(draw(&job, far).err(), Some("Date out of range".to_string()));
    let huge = Job { mode: Mode::YearEnd, theme: Theme::SoftDark, width: u32::MAX, height: u32::MAX };
    assert_eq!(draw(&huge, date(2024, 1, 1)).err(), Some("Image too large".to_string()));
    assert!(generate_preview(&request("life"), &Config::default(), date(2024, 1, 1)).is_err());
}
