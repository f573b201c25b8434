//! Previews for a front end: what a request asks for, settled against the settings, and
//! what is sent back.

use crate::calendar::{date_of_text, Date};
use crate::canvas::{canvas_height, canvas_pixels, canvas_width, png_of, Canvas, PNG_FAILED};
use crate::config::{name_of_theme, parse_theme, theme_name, theme_of_name, Config, Theme};
use crate::modes::{is_mode_named, mode_error, mode_named, remaining_weeks, Mode, WeekGrid};
use crate::renderer::{is_wallpaper, render_grid};
use crate::text::{lowercase_of, owned};
use base64::Engine;
use vstd::prelude::*;
use vstd::string::StringExecFns;

verus! {

/// What is said where the window reaches beyond the dates that can be held.
pub const OUT_OF_RANGE: &'static str = "Date out of range";

/// What is said where the image would be too large to hold.
pub const TOO_LARGE: &'static str = "Image too large";

/// The standard Base64 form of some bytes, with padding, as the `base64` crate writes it.
pub uninterp spec fn base64_of(bytes: Seq<u8>) -> Seq<char>;

/// What a front end asks for. What it leaves open is taken from the settings.
#[derive(Debug, Clone)]
pub struct GenerateRequest {
    pub mode: String,
    pub dob: Option<String>,
    pub lifespan: Option<u8>,
    pub months: Option<u8>,
    pub theme: Option<String>,
    pub width: Option<u32>,
    pub height: Option<u32>,
}

/// What is sent back for a request: the figures of the grid, and the image as a PNG file
/// in Base64.
#[derive(Debug, Clone)]
pub struct GenerateResponse {
    pub title: String,
    pub subtitle: String,
    pub total_weeks: usize,
    pub elapsed_weeks: usize,
    pub remaining_weeks: usize,
    pub columns: usize,
    pub rows: usize,
    pub image_base64: String,
}

/// The settings as a front end shows them.
#[derive(Debug, Clone)]
pub struct ConfigState {
    pub dob: Option<String>,
    pub lifespan_years: u8,
    pub theme: String,
    pub screen_width: u32,
    pub screen_height: u32,
    pub default_mode: String,
    pub next_months: u8,
    pub schedule_installed: bool,
}

/// A request settled against the settings: what to draw, and at what size.
#[derive(Debug, Clone)]
pub struct Job {
    pub mode: Mode,
    pub theme: Theme,
    pub width: u32,
    pub height: u32,
}

/// The value that is given, or else the one that is set.
pub open spec fn given_or<T>(given: Option<T>, set: T) -> T {
    match given {
        Some(value) => value,
        None => set,
    }
}

impl GenerateRequest {
    /// Whether `dob` is the date of birth of the request: the date that its text stands
    /// for, or none where the text stands for none; and the date of the settings where the
    /// request has no text.
    pub open spec fn has_dob(&self, config: Config, dob: Option<Date>) -> bool {
        match self.dob {
            Some(text) => match date_of_text(text@) {
                Some(ymd) => dob matches Some(date) && date.wf() && date.ymd() == ymd,
                None => dob is None,
            },
            None => dob == config.dob,
        }
    }

    /// The theme of the request: the one that its name stands for, the default one where
    /// the name is not known, and the theme of the settings where the request names none.
    pub open spec fn theme_asked(&self, config: Config) -> Theme {
        match self.theme {
            Some(name) => match theme_of_name(lowercase_of(name@)) {
                Some(theme) => theme,
                None => Theme::SoftDark,
            },
            None => config.theme,
        }
    }

    /// Whether `result` is the request settled against the settings, with `dob` as the
    /// date of birth.
    pub open spec fn is_settled(&self, config: Config, dob: Option<Date>, result: Result<Job, String>) -> bool {
        let named: Result<Mode, String> = match result {
            Ok(job) => Ok(job.mode),
            Err(message) => Err(message),
        };
        &&& is_mode_named(
            named,
            lowercase_of(self.mode@),
            self.mode@,
            dob,
            Some(given_or(self.lifespan, config.lifespan_years)),
            Some(given_or(self.months, config.next_months)),
        )
        &&& result matches Ok(job) ==> {
            &&& job.theme == self.theme_asked(config)
            &&& job.width == given_or(self.width, config.screen_width)
            &&& job.height == given_or(self.height, config.screen_height)
        }
    }

    /// The date of birth that the request asks for: the date that its text stands for,
    /// none where the text stands for none, and the date of the settings where the request
    /// has no text.
    pub open spec fn dob_asked(&self, config: Config) -> Option<Date> {
        match self.dob {
            Some(text) => Date::of_text(text@),
            None => config.dob,
        }
    }

    /// The window that the request asks for, with the numbers of the settings where the
    /// request gives none; no window where the request names none, or a life without a
    /// date of birth.
    pub open spec fn mode_asked(&self, config: Config) -> Option<Mode> {
        mode_named(
            lowercase_of(self.mode@),
            self.dob_asked(config),
            Some(given_or(self.lifespan, config.lifespan_years)),
            Some(given_or(self.months, config.next_months)),
        )
    }

    /// The date of birth of the request.
    pub fn date_of_birth(&self, config: &Config) -> (dob: Option<Date>)
        ensures
            self.has_dob(*config, dob),
            dob == self.dob_asked(*config),
    {
        match &self.dob {
            Some(text) => Date::parse(text.as_str()),
            None => config.dob,
        }
    }

    /// Settles the request against the settings, with `dob` as the date of birth. Fails
    /// where the request names no window, or a life without a date of birth.
    pub fn resolve(&self, config: &Config, dob: Option<Date>) -> (result: Result<Job, String>)
        ensures
            self.is_settled(*config, dob, result),
    {
        let lifespan = match self.lifespan {
            Some(years) => years,
            None => config.lifespan_years,
        };
        let months = match self.months {
            Some(months) => months,
            None => config.next_months,
        };
        let mode = match Mode::from_str_with_params(
            self.mode.as_str(),
            dob,
            Some(lifespan),
            Some(months),
        ) {
            Ok(mode) => mode,
            Err(message) => {
                return Err(message);
            },
        };
        let theme = match &self.theme {
            Some(name) => parse_theme(name.as_str()),
            None => config.theme.duplicate(),
        };
        let width = match self.width {
            Some(width) => width,
            None => config.screen_width,
        };
        let height = match self.height {
            Some(height) => height,
            None => config.screen_height,
        };
        Ok(Job { mode, theme, width, height })
    }
}

impl GenerateResponse {
    /// What is sent back for `grid`, drawn as the image `image_base64`.
    pub fn new(grid: WeekGrid, image_base64: String) -> (response: GenerateResponse)
        ensures
            response.title == grid.title,
            response.subtitle == grid.subtitle,
            response.total_weeks == grid.total_weeks,
            response.elapsed_weeks == grid.elapsed_weeks,
            response.remaining_weeks == remaining_weeks(
                grid.total_weeks as int,
                grid.elapsed_weeks as int,
            ),
            response.columns == grid.columns,
            response.rows == grid.rows,
            response.image_base64 == image_base64,
    {
        let remaining = if grid.total_weeks > grid.elapsed_weeks {
            grid.total_weeks - grid.elapsed_weeks - 1
        } else {
            0
        };
        GenerateResponse {
            title: grid.title,
            subtitle: grid.subtitle,
            total_weeks: grid.total_weeks,
            elapsed_weeks: grid.elapsed_weeks,
            remaining_weeks: remaining,
            columns: grid.columns,
            rows: grid.rows,
            image_base64,
        }
    }
}

impl ConfigState {
    /// The settings as a front end shows them, with whether the schedule is installed.
    pub fn new(config: &Config, schedule_installed: bool) -> (state: ConfigState)
        ensures
            match config.dob {
                Some(date) => state.dob matches Some(text) && text@ == crate::calendar::text_of_date(
                    date.year() as int,
                    date.month() as int,
                    date.day() as int,
                ),
                None => state.dob is None,
            },
            state.lifespan_years == config.lifespan_years,
            state.theme@ == name_of_theme(config.theme),
            state.screen_width == config.screen_width,
            state.screen_height == config.screen_height,
            state.default_mode == config.default_mode,
            state.next_months == config.next_months,
            state.schedule_installed == schedule_installed,
    {
        ConfigState {
            dob: match config.dob {
                Some(date) => Some(date.format()),
                None => None,
            },
            lifespan_years: config.lifespan_years,
            theme: theme_name(&config.theme),
            screen_width: config.screen_width,
            screen_height: config.screen_height,
            default_mode: config.default_mode.clone(),
            next_months: config.next_months,
            schedule_installed,
        }
    }
}

/// Whether `grid` is the grid of the window `mode`, seen from `today`, and `canvas` its
/// wallpaper in the colours of `theme` at `width` by `height`.
pub open spec fn is_drawn(
    grid: WeekGrid,
    canvas: Canvas,
    mode: Mode,
    theme: Theme,
    width: int,
    height: int,
    today: Date,
) -> bool {
    &&& grid.wf()
    &&& match mode {
        Mode::NextMonths { months } => grid.is_next_months(months, today),
        Mode::YearEnd => grid.is_year_end(today),
        Mode::Life { dob, lifespan_years } => grid.is_life(dob, lifespan_years, today),
    }
    &&& is_wallpaper(canvas, grid, theme.palette(), width, height)
}

/// Whether `response` holds the figures of `grid`, and `canvas` as a PNG file in Base64.
pub open spec fn is_response(response: GenerateResponse, grid: WeekGrid, canvas: Canvas) -> bool {
    &&& png_of(canvas_width(canvas), canvas_height(canvas), canvas_pixels(canvas)) matches Some(
        file,
    ) && response.image_base64@ == base64_of(file)
    &&& response.title == grid.title
    &&& response.subtitle == grid.subtitle
    &&& response.total_weeks == grid.total_weeks
    &&& response.elapsed_weeks == grid.elapsed_weeks
    &&& response.remaining_weeks == remaining_weeks(
        grid.total_weeks as int,
        grid.elapsed_weeks as int,
    )
    &&& response.columns == grid.columns
    &&& response.rows == grid.rows
}

/// Whether `message` says that an image cannot be written as a PNG file.
pub open spec fn is_png_failure(message: Seq<char>) -> bool {
    message.len() >= PNG_FAILED@.len() && message.subrange(0, PNG_FAILED@.len() as int)
        == PNG_FAILED@
}

/// Whether `result` is what is sent back for a request that asks for the window `mode`
/// in the colours of `theme` at `width` by `height`, seen from `today`. Where the window
/// lies within the dates that can be held and the image is small enough to be held, there
/// is a grid of the window and a wallpaper of that grid: the result is the response that
/// holds them, or says that the wallpaper cannot be written as a PNG file where it
/// cannot. Else the result says which of the two is not so.
pub open spec fn is_preview_of(
    result: Result<GenerateResponse, String>,
    mode: Mode,
    theme: Theme,
    width: u32,
    height: u32,
    today: Date,
) -> bool {
    if !mode.in_range(today) {
        result matches Err(message) && message@ == OUT_OF_RANGE@
    } else if 4 * width * height > isize::MAX {
        result matches Err(message) && message@ == TOO_LARGE@
    } else {
        exists|grid: WeekGrid, canvas: Canvas| #[trigger]
            is_drawn(grid, canvas, mode, theme, width as int, height as int, today)
                && match result {
                Ok(response) => is_response(response, grid, canvas),
                Err(message) => png_of(
                    canvas_width(canvas),
                    canvas_height(canvas),
                    canvas_pixels(canvas),
                ) is None && is_png_failure(message@),
            }
    }
}

/// Draws what `job` asks for, seen from `today`. Fails with [`OUT_OF_RANGE`] where the
/// window reaches beyond the dates that can be held, and with [`TOO_LARGE`] where the
/// image would be too large to hold.
pub fn draw(job: &Job, today: Date) -> (result: Result<(WeekGrid, Canvas), String>)
    ensures
        match result {
            Ok((grid, canvas)) => {
                &&& job.mode.in_range(today)
                &&& 4 * job.width * job.height <= isize::MAX
                &&& grid.wf()
                &&& match job.mode {
                    Mode::NextMonths { months } => grid.is_next_months(months, today),
                    Mode::YearEnd => grid.is_year_end(today),
                    Mode::Life { dob, lifespan_years } => grid.is_life(dob, lifespan_years, today),
                }
                &&& crate::renderer::is_wallpaper(
                    canvas,
                    grid,
                    job.theme.palette(),
                    job.width as int,
                    job.height as int,
                )
            },
            Err(message) => if !job.mode.in_range(today) {
                message@ == OUT_OF_RANGE@
            } else {
                4 * job.width * job.height > isize::MAX && message@ == TOO_LARGE@
            },
        },
{
    let grid = match WeekGrid::try_calculate(&job.mode, today) {
        Some(grid) => grid,
        None => {
            return Err(owned(OUT_OF_RANGE));
        },
    };
    if !Canvas::fits(job.width, job.height) {
        return Err(owned(TOO_LARGE));
    }
    let canvas = render_grid(&grid, &job.theme, job.width, job.height);
    Ok((grid, canvas))
}

/// What is sent back for `grid`, drawn as `canvas`: the figures of the grid, and the
/// canvas as a PNG file in Base64. Fails with [`PNG_FAILED`] and the words of the `image`
/// crate where the canvas cannot be written as a PNG file.
pub fn respond(grid: WeekGrid, canvas: &Canvas) -> (result: Result<GenerateResponse, String>)
    ensures
        match result {
            Ok(response) => {
                &&& png_of(canvas_width(*canvas), canvas_height(*canvas), canvas_pixels(*canvas))
                    matches Some(file) && response.image_base64@ == base64_of(file)
                &&& response.title == grid.title
                &&& response.subtitle == grid.subtitle
                &&& response.total_weeks == grid.total_weeks
                &&& response.elapsed_weeks == grid.elapsed_weeks
                &&& response.remaining_weeks == remaining_weeks(
                    grid.total_weeks as int,
                    grid.elapsed_weeks as int,
                )
                &&& response.columns == grid.columns
                &&& response.rows == grid.rows
            },
            Err(message) => {
                &&& png_of(canvas_width(*canvas), canvas_height(*canvas), canvas_pixels(*canvas))
                    is None
                &&& message@.len() >= PNG_FAILED@.len()
                &&& message@.subrange(0, PNG_FAILED@.len() as int) == PNG_FAILED@
            },
        },
{
    match canvas.to_png() {
        Ok(file) => Ok(GenerateResponse::new(grid, encode_base64(&file))),
        Err(message) => Err(message),
    }
}

/// What is sent back for a request: the grid that it asks for, seen from `today`, and its
/// wallpaper as a PNG file in Base64. Fails where the request cannot be settled, where
/// the grid cannot be drawn, and where the image cannot be written.
pub fn generate_preview(request: &GenerateRequest, config: &Config, today: Date) -> (result: Result<
    GenerateResponse,
    String,
>)
    ensures
        match request.mode_asked(*config) {
            Some(mode) => is_preview_of(
                result,
                mode,
                request.theme_asked(*config),
                given_or(request.width, config.screen_width),
                given_or(request.height, config.screen_height),
                today,
            ),
            None => result matches Err(message) && message@ == mode_error(
                lowercase_of(request.mode@),
                request.mode@,
            ),
        },
        result matches Ok(response) ==> {
            &&& response.total_weeks >= 1
            &&& response.elapsed_weeks <= response.total_weeks
            &&& response.remaining_weeks == remaining_weeks(
                response.total_weeks as int,
                response.elapsed_weeks as int,
            )
            &&& response.columns * response.rows >= response.total_weeks
        },
{
    let dob = request.date_of_birth(config);
    let job = match request.resolve(config, dob) {
        Ok(job) => job,
        Err(message) => {
            return Err(message);
        },
    };
    let (grid, canvas) = match draw(&job, today) {
        Ok(drawn) => drawn,
        Err(message) => {
            return Err(message);
        },
    };
    proof {
        crate::modes::lemma_past_count_bound(grid.weeks@);
    }
    let ghost drawn = grid;
    let result = respond(grid, &canvas);
    assert(is_drawn(
        drawn,
        canvas,
        job.mode,
        job.theme,
        job.width as int,
        job.height as int,
        today,
    ));
    result
}

/// `Engine::encode` of `base64::engine::general_purpose::STANDARD`. Assumed: the text
/// depends on the bytes alone.
#[verifier::external_body]
fn encode_base64(bytes: &Vec<u8>) -> (text: String)
    ensures
        text@ == base64_of(bytes@),
{
    base64::engine::general_purpose::STANDARD.encode(bytes)
}

} // verus!
