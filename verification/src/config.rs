//! The colour themes and the settings of a user.

use crate::calendar::{date_of_text, Date};
use crate::text::{lowercase_of, owned, parse_unsigned, same_text, to_lowercase, unsigned_of};
use vstd::prelude::*;
use vstd::string::{StrSliceExecFns, StringExecFns};

verus! {

/// The colour that stands in for a colour text that cannot be read: an opaque mid-gray.
pub open spec fn fallback_color() -> Seq<u8> {
    seq![128u8, 128u8, 128u8, 255u8]
}

/// The value of a hexadecimal digit, of either case.
pub open spec fn hex_digit(c: char) -> Option<int> {
    if '0' <= c <= '9' {
        Some(c as int - '0' as int)
    } else if 'a' <= c <= 'f' {
        Some(c as int - 'a' as int + 10)
    } else if 'A' <= c <= 'F' {
        Some(c as int - 'A' as int + 10)
    } else {
        None
    }
}

/// The value of the two hexadecimal digits at `at` and `at + 1` of `digits`.
pub open spec fn hex_pair(digits: Seq<char>, at: int) -> Option<u8> {
    match (hex_digit(digits[at]), hex_digit(digits[at + 1])) {
        (Some(high), Some(low)) => Some((16 * high + low) as u8),
        _ => None,
    }
}

/// The text of a colour without the `#` that may lead it.
pub open spec fn hex_digits(text: Seq<char>) -> Seq<char> {
    if text.len() > 0 && text[0] == '#' {
        text.subrange(1, text.len() as int)
    } else {
        text
    }
}

/// The red, green, blue and alpha of a colour text. After a `#` that may lead it, the text
/// holds two hexadecimal digits each for red, green and blue, and may hold two more for
/// alpha, which is 255 without them. A text that is too short, or that has another
/// character where a digit is due, gives [`fallback_color`].
pub open spec fn hex_color(text: Seq<char>) -> Seq<u8> {
    let digits = hex_digits(text);
    if digits.len() < 6 {
        fallback_color()
    } else {
        match (hex_pair(digits, 0), hex_pair(digits, 2), hex_pair(digits, 4)) {
            (Some(red), Some(green), Some(blue)) => {
                if digits.len() >= 8 {
                    match hex_pair(digits, 6) {
                        Some(alpha) => seq![red, green, blue, alpha],
                        None => fallback_color(),
                    }
                } else {
                    seq![red, green, blue, 255u8]
                }
            },
            _ => fallback_color(),
        }
    }
}

/// The value of a hexadecimal digit, of either case.
fn hex_digit_value(c: char) -> (value: Option<u8>)
    ensures
        match value {
            Some(v) => hex_digit(c) == Some(v as int),
            None => hex_digit(c) is None,
        },
{
    match c {
        '0' => Some(0),
        '1' => Some(1),
        '2' => Some(2),
        '3' => Some(3),
        '4' => Some(4),
        '5' => Some(5),
        '6' => Some(6),
        '7' => Some(7),
        '8' => Some(8),
        '9' => Some(9),
        'a' | 'A' => Some(10),
        'b' | 'B' => Some(11),
        'c' | 'C' => Some(12),
        'd' | 'D' => Some(13),
        'e' | 'E' => Some(14),
        'f' | 'F' => Some(15),
        _ => None,
    }
}

/// The value of the two hexadecimal digits at `at` and `at + 1` of `text`.
fn hex_pair_value(text: &str, at: usize) -> (value: Option<u8>)
    requires
        at <= 6,
        at + 1 < text@.len(),
    ensures
        value == hex_pair(text@, at as int),
{
    match (hex_digit_value(text.get_char(at)), hex_digit_value(text.get_char(at + 1))) {
        (Some(high), Some(low)) => Some(16 * high + low),
        _ => None,
    }
}

/// Reads a colour text such as `#FF5500` or `FF550080` as red, green, blue and alpha.
pub fn parse_hex_color(hex: &str) -> (color: [u8; 4])
    ensures
        color@ == hex_color(hex@),
{
    let length = hex.unicode_len();
    let digits = if length > 0 && hex.get_char(0) == '#' {
        hex.substring_char(1, length)
    } else {
        hex
    };
    let count = digits.unicode_len();
    let fallback: [u8; 4] = [128, 128, 128, 255];
    assert(fallback@ =~= fallback_color());
    if count < 6 {
        return fallback;
    }
    match (hex_pair_value(digits, 0), hex_pair_value(digits, 2), hex_pair_value(digits, 4)) {
        (Some(red), Some(green), Some(blue)) => {
            if count >= 8 {
                match hex_pair_value(digits, 6) {
                    Some(alpha) => {
                        let color: [u8; 4] = [red, green, blue, alpha];
                        assert(color@ =~= seq![red, green, blue, alpha]);
                        color
                    },
                    None => fallback,
                }
            } else {
                let color: [u8; 4] = [red, green, blue, 255];
                assert(color@ =~= seq![red, green, blue, 255u8]);
                color
            }
        },
        _ => fallback,
    }
}

/// The look of the wallpaper.
#[derive(Debug, Clone, PartialEq)]
pub enum Theme {
    /// Black dots on a cream background.
    MinimalInk,
    /// Green on black, as on a terminal.
    TerminalGreen,
    /// Muted colours on dark gray.
    SoftDark,
    /// Warm colours for the past, cool ones for the future.
    SunsetGradient,
    /// Colours that the user gives, each as a colour text.
    Custom {
        background: String,
        past_week: String,
        current_week: String,
        future_week: String,
        accent: String,
    },
}

/// The colours of a theme, each as red, green, blue and alpha.
#[derive(Debug, Clone, Copy)]
pub struct ThemeColors {
    pub background: [u8; 4],
    pub past_week: [u8; 4],
    pub current_week: [u8; 4],
    pub future_week: [u8; 4],
    pub accent: [u8; 4],
    pub text: [u8; 4],
}

/// The colours of a theme as sequences of red, green, blue and alpha.
pub struct Palette {
    pub background: Seq<u8>,
    pub past_week: Seq<u8>,
    pub current_week: Seq<u8>,
    pub future_week: Seq<u8>,
    pub accent: Seq<u8>,
    pub text: Seq<u8>,
}

impl View for ThemeColors {
    type V = Palette;

    open spec fn view(&self) -> Palette {
        Palette {
            background: self.background@,
            past_week: self.past_week@,
            current_week: self.current_week@,
            future_week: self.future_week@,
            accent: self.accent@,
            text: self.text@,
        }
    }
}

/// An opaque colour.
pub open spec fn opaque(red: u8, green: u8, blue: u8) -> Seq<u8> {
    seq![red, green, blue, 255u8]
}

impl Theme {
    /// The colours of each theme. Those of a custom theme are read from its colour texts,
    /// and its text is white.
    pub open spec fn palette(&self) -> Palette {
        match *self {
            Theme::MinimalInk => Palette {
                background: opaque(250, 245, 235),
                past_week: opaque(30, 30, 30),
                current_week: opaque(220, 60, 60),
                future_week: opaque(200, 195, 185),
                accent: opaque(220, 60, 60),
                text: opaque(30, 30, 30),
            },
            Theme::TerminalGreen => Palette {
                background: opaque(15, 15, 15),
                past_week: opaque(0, 180, 80),
                current_week: opaque(0, 255, 120),
                future_week: opaque(40, 60, 45),
                accent: opaque(0, 255, 120),
                text: opaque(0, 200, 100),
            },
            Theme::SoftDark => Palette {
                background: opaque(28, 28, 32),
                past_week: opaque(140, 140, 160),
                current_week: opaque(255, 120, 100),
                future_week: opaque(55, 55, 65),
                accent: opaque(255, 120, 100),
                text: opaque(200, 200, 210),
            },
            Theme::SunsetGradient => Palette {
                background: opaque(25, 25, 35),
                past_week: opaque(255, 140, 90),
                current_week: opaque(255, 220, 100),
                future_week: opaque(60, 60, 90),
                accent: opaque(255, 180, 100),
                text: opaque(240, 240, 250),
            },
            Theme::Custom { background, past_week, current_week, future_week, accent } => Palette {
                background: hex_color(background@),
                past_week: hex_color(past_week@),
                current_week: hex_color(current_week@),
                future_week: hex_color(future_week@),
                accent: hex_color(accent@),
                text: opaque(255, 255, 255),
            },
        }
    }

    /// The colours of this theme.
    pub fn colors(&self) -> (colors: ThemeColors)
        ensures
            colors@ == self.palette(),
    {
        let colors = match self {
            Theme::MinimalInk => ThemeColors {
                background: rgb(250, 245, 235),
                past_week: rgb(30, 30, 30),
                current_week: rgb(220, 60, 60),
                future_week: rgb(200, 195, 185),
                accent: rgb(220, 60, 60),
                text: rgb(30, 30, 30),
            },
            Theme::TerminalGreen => ThemeColors {
                background: rgb(15, 15, 15),
                past_week: rgb(0, 180, 80),
                current_week: rgb(0, 255, 120),
                future_week: rgb(40, 60, 45),
                accent: rgb(0, 255, 120),
                text: rgb(0, 200, 100),
            },
            Theme::SoftDark => ThemeColors {
                background: rgb(28, 28, 32),
                past_week: rgb(140, 140, 160),
                current_week: rgb(255, 120, 100),
                future_week: rgb(55, 55, 65),
                accent: rgb(255, 120, 100),
                text: rgb(200, 200, 210),
            },
            Theme::SunsetGradient => ThemeColors {
                background: rgb(25, 25, 35),
                past_week: rgb(255, 140, 90),
                current_week: rgb(255, 220, 100),
                future_week: rgb(60, 60, 90),
                accent: rgb(255, 180, 100),
                text: rgb(240, 240, 250),
            },
            Theme::Custom { background, past_week, current_week, future_week, accent } => ThemeColors {
                background: parse_hex_color(background.as_str()),
                past_week: parse_hex_color(past_week.as_str()),
                current_week: parse_hex_color(current_week.as_str()),
                future_week: parse_hex_color(future_week.as_str()),
                accent: parse_hex_color(accent.as_str()),
                text: rgb(255, 255, 255),
            },
        };
        colors
    }
}

impl Theme {
    /// A copy of this theme.
    pub fn duplicate(&self) -> (copy: Theme)
        ensures
            copy == *self,
    {
        match self {
            Theme::MinimalInk => Theme::MinimalInk,
            Theme::TerminalGreen => Theme::TerminalGreen,
            Theme::SoftDark => Theme::SoftDark,
            Theme::SunsetGradient => Theme::SunsetGradient,
            Theme::Custom { background, past_week, current_week, future_week, accent } => Theme::Custom {
                background: background.clone(),
                past_week: past_week.clone(),
                current_week: current_week.clone(),
                future_week: future_week.clone(),
                accent: accent.clone(),
            },
        }
    }
}

impl Default for Theme {
    /// The theme used where none is chosen.
    fn default() -> (theme: Theme)
        ensures
            theme == Theme::SoftDark,
    {
        Theme::SoftDark
    }
}

/// An opaque colour.
fn rgb(red: u8, green: u8, blue: u8) -> (color: [u8; 4])
    ensures
        color@ == opaque(red, green, blue),
{
    let color: [u8; 4] = [red, green, blue, 255];
    assert(color@ =~= opaque(red, green, blue));
    color
}

/// The theme that a lower-case name stands for.
pub open spec fn theme_of_name(name: Seq<char>) -> Option<Theme> {
    if name == "minimal"@ || name == "minimal_ink"@ || name == "minimal-ink"@ {
        Some(Theme::MinimalInk)
    } else if name == "terminal"@ || name == "terminal_green"@ || name == "terminal-green"@ {
        Some(Theme::TerminalGreen)
    } else if name == "dark"@ || name == "soft_dark"@ || name == "soft-dark"@ {
        Some(Theme::SoftDark)
    } else if name == "sunset"@ || name == "sunset_gradient"@ || name == "sunset-gradient"@ {
        Some(Theme::SunsetGradient)
    } else {
        None
    }
}

/// The short name of a theme.
pub open spec fn name_of_theme(theme: Theme) -> Seq<char> {
    match theme {
        Theme::MinimalInk => "minimal"@,
        Theme::TerminalGreen => "terminal"@,
        Theme::SoftDark => "dark"@,
        Theme::SunsetGradient => "sunset"@,
        Theme::Custom { .. } => "custom"@,
    }
}

/// The theme that the lower-case `name` stands for, if it is the name of one.
pub fn theme_named(name: &str) -> (theme: Option<Theme>)
    ensures
        theme == theme_of_name(name@),
{
    if same_text(name, "minimal") || same_text(name, "minimal_ink") || same_text(
        name,
        "minimal-ink",
    ) {
        Some(Theme::MinimalInk)
    } else if same_text(name, "terminal") || same_text(name, "terminal_green") || same_text(
        name,
        "terminal-green",
    ) {
        Some(Theme::TerminalGreen)
    } else if same_text(name, "dark") || same_text(name, "soft_dark") || same_text(
        name,
        "soft-dark",
    ) {
        Some(Theme::SoftDark)
    } else if same_text(name, "sunset") || same_text(name, "sunset_gradient") || same_text(
        name,
        "sunset-gradient",
    ) {
        Some(Theme::SunsetGradient)
    } else {
        None
    }
}

/// The theme that `name` stands for, whatever the case of its letters; the default theme
/// where it is the name of none.
pub fn parse_theme(name: &str) -> (theme: Theme)
    ensures
        theme == match theme_of_name(lowercase_of(name@)) {
            Some(named) => named,
            None => Theme::SoftDark,
        },
{
    let lower = to_lowercase(name);
    match theme_named(lower.as_str()) {
        Some(theme) => theme,
        None => Theme::SoftDark,
    }
}

/// The short name of a theme.
pub fn theme_name(theme: &Theme) -> (name: String)
    ensures
        name@ == name_of_theme(*theme),
{
    match theme {
        Theme::MinimalInk => owned("minimal"),
        Theme::TerminalGreen => owned("terminal"),
        Theme::SoftDark => owned("dark"),
        Theme::SunsetGradient => owned("sunset"),
        Theme::Custom { .. } => owned("custom"),
    }
}

/// The lifespan in years where none is set.
pub fn default_lifespan() -> (years: u8)
    ensures
        years == 80,
{
    80
}

/// The width of the screen where none is set.
pub fn default_width() -> (width: u32)
    ensures
        width == 1920,
{
    1920
}

/// The height of the screen where none is set.
pub fn default_height() -> (height: u32)
    ensures
        height == 1080,
{
    1080
}

/// The number of months where none is set.
pub fn default_months() -> (months: u8)
    ensures
        months == 6,
{
    6
}

/// The settings of a user.
#[derive(Debug, Clone)]
pub struct Config {
    /// The date of birth, for the grid of a life.
    pub dob: Option<Date>,
    /// The expected lifespan in years.
    pub lifespan_years: u8,
    /// The look of the wallpaper.
    pub theme: Theme,
    /// The width of the screen, in pixels.
    pub screen_width: u32,
    /// The height of the screen, in pixels.
    pub screen_height: u32,
    /// The name of the window that is shown where none is asked for.
    pub default_mode: String,
    /// The number of months of the window of the next months.
    pub next_months: u8,
}

/// A setting that a key names.
pub enum Key {
    Dob,
    Lifespan,
    Theme,
    Width,
    Height,
    Mode,
    Months,
}

/// The setting that a key names, if it names one.
pub open spec fn key_named(key: Seq<char>) -> Option<Key> {
    if key == "dob"@ {
        Some(Key::Dob)
    } else if key == "theme"@ {
        Some(Key::Theme)
    } else if key == "lifespan"@ || key == "lifespan_years"@ {
        Some(Key::Lifespan)
    } else if key == "width"@ || key == "screen_width"@ {
        Some(Key::Width)
    } else if key == "height"@ || key == "screen_height"@ {
        Some(Key::Height)
    } else if key == "default_mode"@ || key == "mode"@ {
        Some(Key::Mode)
    } else if key == "next_months"@ || key == "months"@ {
        Some(Key::Months)
    } else {
        None
    }
}

/// Whether `after` is `before` but for the setting `key`.
pub open spec fn same_but(after: Config, before: Config, key: Key) -> bool {
    &&& key is Dob || after.dob == before.dob
    &&& key is Lifespan || after.lifespan_years == before.lifespan_years
    &&& key is Theme || after.theme == before.theme
    &&& key is Width || after.screen_width == before.screen_width
    &&& key is Height || after.screen_height == before.screen_height
    &&& key is Mode || after.default_mode == before.default_mode
    &&& key is Months || after.next_months == before.next_months
}

/// Whether `after` holds the value that the text `value` stands for as the setting `key`.
pub open spec fn holds_value(after: Config, key: Key, value: Seq<char>) -> bool {
    match key {
        Key::Dob => after.dob matches Some(date) && date.wf() && date_of_text(value) == Some(
            date.ymd(),
        ),
        Key::Lifespan => unsigned_of(value, 255) == Some(after.lifespan_years as nat),
        Key::Theme => theme_of_name(lowercase_of(value)) == Some(after.theme),
        Key::Width => unsigned_of(value, 0xFFFF_FFFF) == Some(after.screen_width as nat),
        Key::Height => unsigned_of(value, 0xFFFF_FFFF) == Some(after.screen_height as nat),
        Key::Mode => after.default_mode@ == value,
        Key::Months => unsigned_of(value, 255) == Some(after.next_months as nat),
    }
}

/// Whether the text `value` stands for a value of the setting `key`.
pub open spec fn is_value(key: Key, value: Seq<char>) -> bool {
    match key {
        Key::Dob => date_of_text(value) is Some,
        Key::Lifespan => unsigned_of(value, 255) is Some,
        Key::Theme => theme_of_name(lowercase_of(value)) is Some,
        Key::Width => unsigned_of(value, 0xFFFF_FFFF) is Some,
        Key::Height => unsigned_of(value, 0xFFFF_FFFF) is Some,
        Key::Mode => true,
        Key::Months => unsigned_of(value, 255) is Some,
    }
}

/// What is said of a text that stands for no value of the setting `key`.
pub open spec fn value_error(key: Key, value: Seq<char>) -> Seq<char> {
    match key {
        Key::Dob => "Invalid date format: "@ + value + ". Use YYYY-MM-DD"@,
        Key::Lifespan => "Invalid lifespan: "@ + value,
        Key::Theme => "Unknown theme: "@ + value + ". Options: minimal, terminal, dark, sunset"@,
        Key::Width => "Invalid width: "@ + value,
        Key::Height => "Invalid height: "@ + value,
        Key::Mode => Seq::empty(),
        Key::Months => "Invalid months: "@ + value,
    }
}

/// Whether `after` and `result` are what setting `key` to `value` makes of `before`: the
/// one setting is changed where the key names one and the value is one of its values;
/// else nothing is changed, and the result says what is wrong.
pub open spec fn is_set(
    after: Config,
    before: Config,
    result: Result<(), String>,
    key: Seq<char>,
    value: Seq<char>,
) -> bool {
    match key_named(key) {
        Some(named) => if is_value(named, value) {
            result is Ok && same_but(after, before, named) && holds_value(after, named, value)
        } else {
            &&& after == before
            &&& result matches Err(message) && message@ == value_error(named, value)
        },
        None => {
            &&& after == before
            &&& result matches Err(message) && message@ == "Unknown config key: "@ + key
        },
    }
}

/// A message made of `lead` and `value`.
fn objection(lead: &str, value: &str) -> (result: Result<(), String>)
    ensures
        result matches Err(message) && message@ == lead@ + value@,
{
    let mut message = owned(lead);
    message.append(value);
    Err(message)
}

/// A message made of `lead`, `value` and `tail`.
fn complaint(lead: &str, value: &str, tail: &str) -> (result: Result<(), String>)
    ensures
        result matches Err(message) && message@ == lead@ + value@ + tail@,
{
    let mut message = owned(lead);
    message.append(value);
    message.append(tail);
    Err(message)
}

impl Default for Config {
    /// The settings of a user who has set nothing.
    fn default() -> (config: Config)
        ensures
            config.dob is None,
            config.lifespan_years == 80,
            config.theme == Theme::SoftDark,
            config.screen_width == 1920,
            config.screen_height == 1080,
            config.default_mode@ == "year-end"@,
            config.next_months == 6,
    {
        Config {
            dob: None,
            lifespan_years: default_lifespan(),
            theme: Theme::default(),
            screen_width: default_width(),
            screen_height: default_height(),
            default_mode: owned("year-end"),
            next_months: default_months(),
        }
    }
}

impl Config {
    /// Sets the setting that `key` names to the value that the text `value` stands for.
    pub fn set(&mut self, key: &str, value: &str) -> (result: Result<(), String>)
        ensures
            is_set(*final(self), *old(self), result, key@, value@),
    {
        if same_text(key, "dob") {
            self.set_dob(Date::parse(value), value)
        } else if same_text(key, "theme") {
            let lower = to_lowercase(value);
            self.set_theme(theme_named(lower.as_str()), value)
        } else {
            self.set_plain(key, value)
        }
    }

    /// Sets the date of birth to `parsed`, the date that the text `value` was read as;
    /// fails where it was read as none.
    pub fn set_dob(&mut self, parsed: Option<Date>, value: &str) -> (result: Result<(), String>)
        ensures
            match parsed {
                Some(date) => result is Ok && same_but(*final(self), *old(self), Key::Dob)
                    && final(self).dob == Some(date),
                None => {
                    &&& *final(self) == *old(self)
                    &&& result matches Err(message) && message@ == value_error(Key::Dob, value@)
                },
            },
    {
        match parsed {
            Some(date) => {
                self.dob = Some(date);
                Ok(())
            },
            None => complaint("Invalid date format: ", value, ". Use YYYY-MM-DD"),
        }
    }

    /// Sets the theme to `named`, the theme that the text `value` was read as; fails where
    /// it was read as none.
    pub fn set_theme(&mut self, named: Option<Theme>, value: &str) -> (result: Result<(), String>)
        ensures
            match named {
                Some(theme) => result is Ok && same_but(*final(self), *old(self), Key::Theme)
                    && final(self).theme == theme,
                None => {
                    &&& *final(self) == *old(self)
                    &&& result matches Err(message) && message@ == value_error(Key::Theme, value@)
                },
            },
    {
        match named {
            Some(theme) => {
                self.theme = theme;
                Ok(())
            },
            None => complaint("Unknown theme: ", value, ". Options: minimal, terminal, dark, sunset"),
        }
    }

    /// Sets a setting whose value is a number or a plain text.
    fn set_plain(&mut self, key: &str, value: &str) -> (result: Result<(), String>)
        requires
            key@ != "dob"@,
            key@ != "theme"@,
        ensures
            is_set(*final(self), *old(self), result, key@, value@),
    {
        if same_text(key, "lifespan") || same_text(key, "lifespan_years") {
            match parse_unsigned(value, 255) {
                Some(years) => {
                    self.lifespan_years = years as u8;
                    Ok(())
                },
                None => objection("Invalid lifespan: ", value),
            }
        } else if same_text(key, "width") || same_text(key, "screen_width") {
            match parse_unsigned(value, 0xFFFF_FFFF) {
                Some(width) => {
                    self.screen_width = width;
                    Ok(())
                },
                None => objection("Invalid width: ", value),
            }
        } else if same_text(key, "height") || same_text(key, "screen_height") {
            match parse_unsigned(value, 0xFFFF_FFFF) {
                Some(height) => {
                    self.screen_height = height;
                    Ok(())
                },
                None => objection("Invalid height: ", value),
            }
        } else if same_text(key, "default_mode") || same_text(key, "mode") {
            self.default_mode = owned(value);
            Ok(())
        } else if same_text(key, "next_months") || same_text(key, "months") {
            match parse_unsigned(value, 255) {
                Some(months) => {
                    self.next_months = months as u8;
                    Ok(())
                },
                None => objection("Invalid months: ", value),
            }
        } else {
            objection("Unknown config key: ", key)
        }
    }
}

} // verus!
