use liw_core::config::{parse_hex_color, parse_theme, theme_name, Theme};

#[test]
fn test_parse_hex_color() {
    assert_eq!(parse_hex_color("#FF0000"), [255, 0, 0, 255]);
    assert_eq!(parse_hex_color("00FF00"), [0, 255, 0, 255]);
    assert_eq!(parse_hex_color("#0000FFAA"), [0, 0, 255, 170]);
}

#[test]
fn hex_color_falls_back_to_gray() {
    assert_eq!(parse_hex_color("zz"), [128, 128, 128, 255]);
    assert_eq!(parse_hex_color(""), [128, 128, 128, 255]);
    assert_eq!(parse_hex_color("#"), [128, 128, 128, 255]);
    assert_eq!(parse_hex_color("#12345"), [128, 128, 128, 255]);
    assert_eq!(parse_hex_color("zz0000"), [128, 128, 128, 255]);
    assert_eq!(parse_hex_color("00zz00"), [128, 128, 128, 255]);
    assert_eq!(parse_hex_color("0000zz"), [128, 128, 128, 255]);
    assert_eq!(parse_hex_color("000000zz"), [128, 128, 128, 255]);
    assert_eq!(parse_hex_color("+F0000"), [128, 128, 128, 255]);
    assert_eq!(parse_hex_color("##FF0000"), [128, 128, 128, 255]);
    assert_eq!(parse_hex_color("é12345"), [128, 128, 128, 255]);
}

#[test]
fn hex_color_reads_either_case_and_passes_over_what_follows() {
    assert_eq!(parse_hex_color("#abcdef"), [0xab, 0xcd, 0xef, 255]);
    assert_eq!(parse_hex_color("#ABCDEF"), [0xab, 0xcd, 0xef, 255]);
    assert_eq!(parse_hex_color("1020304"), [0x10, 0x20, 0x30, 255]);
    assert_eq!(parse_hex_color("10203040zz"), [0x10, 0x20, 0x30, 0x40]);
    assert_eq!(parse_hex_color("#09afAF00"), [0x09, 0xaf, 0xaf, 0]);
}

#[test]
fn built_in_themes_have_their_colours() {
    let ink = Theme::MinimalInk.colors();
    assert_eq!(ink.background, [250, 245, 235, 255]);
    assert_eq!(ink.past_week, [30, 30, 30, 255]);
    assert_eq!(ink.current_week, [220, 60, 60, 255]);
    assert_eq!(ink.future_week, [200, 195, 185, 255]);
    assert_eq!(ink.accent, [220, 60, 60, 255]);
    assert_eq!(ink.text, [30, 30, 30, 255]);
    let green = Theme::TerminalGreen.colors();
    assert_eq!(green.background, [15, 15, 15, 255]);
    assert_eq!(green.past_week, [0, 180, 80, 255]);
    assert_eq!(green.current_week, [0, 255, 120, 255]);
    assert_eq!(green.future_week, [40, 60, 45, 255]);
    assert_eq!(green.accent, [0, 255, 120, 255]);
    assert_eq!(green.text, [0, 200, 100, 255]);
    let dark = Theme::SoftDark.colors();
    assert_eq!(dark.background, [28, 28, 32, 255]);
    assert_eq!(dark.past_week, [140, 140, 160, 255]);
    assert_eq!(dark.current_week, [255, 120, 100, 255]);
    assert_eq!(dark.future_week, [55, 55, 65, 255]);
    assert_eq!(dark.accent, [255, 120, 100, 255]);
    assert_eq!(dark.text, [200, 200, 210, 255]);
    let sunset = Theme::SunsetGradient.colors();
    assert_eq!(sunset.background, [25, 25, 35, 255]);
    assert_eq!(sunset.past_week, [255, 140, 90, 255]);
    assert_eq!(sunset.current_week, [255, 220, 100, 255]);
    assert_eq!(sunset.future_week, [60, 60, 90, 255]);
    assert_eq!(sunset.accent, [255, 180, 100, 255]);
    assert_eq!(sunset.text, [240, 240, 250, 255]);
}

#[test]
fn custom_theme_reads_its_colour_texts() {
    let theme = Theme::Custom {
        background: "#000000".to_string(),
        past_week: "112233".to_string(),
        current_week: "#FF000080".to_string(),
        future_week: "nonsense".to_string(),
        accent: "#00ff00".to_string(),
    };
    let colors = theme.colors();
    assert_eq!(colors.background, [0, 0, 0, 255]);
    assert_eq!(colors.past_week, [0x11, 0x22, 0x33, 255]);
    assert_eq!(colors.current_week, [255, 0, 0, 128]);
    assert_eq!(colors.future_week, [128, 128, 128, 255]);
    assert_eq!(colors.accent, [0, 255, 0, 255]);
    assert_eq!(colors.text, [255, 255, 255, 255]);
}

#[test]
fn default_theme_is_soft_dark() {
    assert_eq!(Theme::default(), Theme::SoftDark);
}

#[test]
fn test_default_config() {
    let config = liw_core::config::Config::default();
    assert_eq!(config.lifespan_years, 80);
    assert_eq!(config.theme, Theme::SoftDark);
}

#[test]
fn default_config_in_full() {
    let config = liw_core::config::Config::default();
    assert_eq!(config.dob, None);
    assert_eq!(config.screen_width, 1920);
    assert_eq!(config.screen_height, 1080);
    assert_eq!(config.default_mode, "year-end");
    assert_eq!(config.next_months, 6);
    assert_eq!(liw_core::config::default_lifespan(), 80);
    assert_eq!(liw_core::config::default_width(), 1920);
    assert_eq!(liw_core::config::default_height(), 1080);
    assert_eq!(liw_core::config::default_months(), 6);
}

#[test]
fn settings_are_set_by_key() {
    let mut config = liw_core::config::Config::default();
    assert_eq!(config.set("dob", "1990-05-17"), Ok(()));
    assert_eq!(config.dob, liw_core::calendar::Date::from_ymd_opt(1990, 5, 17));
    assert_eq!(config.set("lifespan", "90"), Ok(()));
    assert_eq!(config.lifespan_years, 90);
    assert_eq!(config.set("lifespan_years", "+7"), Ok(()));
    assert_eq!(config.lifespan_years, 7);
    assert_eq!(config.set("theme", "Terminal-Green"), Ok(()));
    assert_eq!(config.theme, Theme::TerminalGreen);
    assert_eq!(config.set("width", "2560"), Ok(()));
    assert_eq!(config.set("screen_height", "0001440"), Ok(()));
    assert_eq!((config.screen_width, config.screen_height), (2560, 1440));
    assert_eq!(config.set("mode", "Life"), Ok(()));
    assert_eq!(config.default_mode, "Life");
    assert_eq!(config.set("months", "255"), Ok(()));
    assert_eq!(config.next_months, 255);
    assert_eq!(config.set("next_months", "4294967295"), Err("Invalid months: 4294967295".to_string()));
    assert_eq!(config.set("width", "4294967295"), Ok(()));
    assert_eq!(config.screen_width, u32::MAX);
}

#[test]
fn what_cannot_be_set_changes_nothing() {
    let mut config = liw_core::config::Config::default();
    assert_eq!(
        config.set("dob", "17.5.1990"),
        Err("Invalid date format: 17.5.1990. Use YYYY-MM-DD".to_string())
    );
    assert_eq!(config.set("lifespan", "256"), Err("Invalid lifespan: 256".to_string()));
    assert_eq!(config.set("lifespan", "-1"), Err("Invalid lifespan: -1".to_string()));
    assert_eq!(config.set("lifespan", ""), Err("Invalid lifespan: ".to_string()));
    assert_eq!(config.set("lifespan", "+"), Err("Invalid lifespan: +".to_string()));
    assert_eq!(config.set("lifespan", "8 0"), Err("Invalid lifespan: 8 0".to_string()));
    assert_eq!(
        config.set("theme", "neon"),
        Err("Unknown theme: neon. Options: minimal, terminal, dark, sunset".to_string())
    );
    assert_eq!(config.set("width", "4294967296"), Err("Invalid width: 4294967296".to_string()));
    assert_eq!(config.set("height", "tall"), Err("Invalid height: tall".to_string()));
    assert_eq!(config.set("colour", "red"), Err("Unknown config key: colour".to_string()));
    assert_eq!(config.set("Theme", "dark"), Err("Unknown config key: Theme".to_string()));
    let fresh = liw_core::config::Config::default();
    assert_eq!(config.dob, fresh.dob);
    assert_eq!(config.lifespan_years, fresh.lifespan_years);
    assert_eq!(config.theme, fresh.theme);
    assert_eq!(config.screen_width, fresh.screen_width);
    assert_eq!(config.screen_height, fresh.screen_height);
    assert_eq!(config.default_mode, fresh.default_mode);
    assert_eq!(config.next_months, fresh.next_months);
}

#[test]
fn numbers_are_read_as_std_reads_them() {
    for text in ["0", "7", "+7", "007", "255", "256", "", "+", "-0", "1e2", " 1", "١", "99999999999999999999"] {
        assert_eq!(liw_core::text::parse_unsigned(text, 255), text.parse::<u8>().ok().map(u32::from), "{:?}", text);
        assert_eq!(liw_core::text::parse_unsigned(text, u32::MAX), text.parse::<u32>().ok(), "{:?}", text);
    }
}

#[test]
fn themes_have_names() {
    assert_eq!(parse_theme("MINIMAL"), Theme::MinimalInk);
    assert_eq!(parse_theme("minimal_ink"), Theme::MinimalInk);
    assert_eq!(parse_theme("terminal"), Theme::TerminalGreen);
    assert_eq!(parse_theme("Soft-Dark"), Theme::SoftDark);
    assert_eq!(parse_theme("sunset_gradient"), Theme::SunsetGradient);
    assert_eq!(parse_theme("nothing"), Theme::SoftDark);
    assert_eq!(theme_name(&Theme::MinimalInk), "minimal");
    assert_eq!(theme_name(&Theme::TerminalGreen), "terminal");
    assert_eq!(theme_name(&Theme::SoftDark), "dark");
    assert_eq!(theme_name(&Theme::SunsetGradient), "sunset");
    let custom = Theme::Custom {
        background: "#000".to_string(),
        past_week: String::new(),
        current_week: String::new(),
        future_week: String::new(),
        accent: String::new(),
    };
    assert_eq!(theme_name(&custom), "custom");
    assert_eq!(custom.duplicate(), custom);
}
