//! The time windows, and the weeks of a window laid out as a grid.

use crate::calendar::{
    add_months, add_years, day_number_of, iso_week_of, monday_of, months_later, week_start,
    years_later, Date, MAX_DAY_NUMBER, MAX_YEAR, MIN_DAY_NUMBER,
};
use crate::calendar::{day_number_of_ymd, lemma_months_later_order, lemma_years_later_order};
use crate::text::{
    decimal, decimal_string, lowercase_of, push_decimal, push_signed_decimal, same_text,
    signed_decimal, signed_decimal_string, to_lowercase,
};
use vstd::prelude::*;
use vstd::string::StringExecFns;

verus! {

/// The time window whose weeks are shown.
#[derive(Debug, Clone)]
pub enum Mode {
    /// The next `months` months from today.
    NextMonths { months: u8 },
    /// From today to the end of the current year.
    YearEnd,
    /// A whole life, from the date of birth to the expected lifespan.
    Life { dob: Date, lifespan_years: u8 },
}

/// Where a week lies relative to today.
#[derive(Debug, Clone, Copy, PartialEq, Eq, Structural)]
pub enum WeekStatus {
    /// The week is over.
    Past,
    /// The week holds today.
    Current,
    /// The week has not begun.
    Future,
}

/// One week of the grid.
#[derive(Debug, Clone)]
pub struct Week {
    /// The Monday that begins the week.
    pub start_date: Date,
    /// Where the week lies relative to today.
    pub status: WeekStatus,
    /// The year, written out, on the first week of a new calendar year of a life.
    pub label: Option<String>,
    /// The calendar year of the Monday.
    pub year: i32,
    /// The ISO week number of the Monday, from 1 to 53.
    pub week_of_year: u32,
}

/// The weeks of a time window, with the dimensions of the grid that shows them.
#[derive(Debug, Clone)]
pub struct WeekGrid {
    /// The weeks, in order of time.
    pub weeks: Vec<Week>,
    /// The number of weeks.
    pub total_weeks: usize,
    /// The number of weeks that are over.
    pub elapsed_weeks: usize,
    /// The index of the week that holds today, if one does.
    pub current_week_index: Option<usize>,
    /// The number of columns of the grid.
    pub columns: usize,
    /// The number of rows of the grid.
    pub rows: usize,
    /// The title shown above the grid.
    pub title: String,
    /// The line of figures shown under the title.
    pub subtitle: String,
}

/// The status of the week that begins on day `start`, seen from the day `today`.
pub open spec fn status_of(start: int, today: int) -> WeekStatus {
    if start <= today < start + 7 {
        WeekStatus::Current
    } else if start < today {
        WeekStatus::Past
    } else {
        WeekStatus::Future
    }
}

/// The number of weeks that begin on day `first`, seven days later, and so on up to day
/// `last`.
pub open spec fn week_count(first: int, last: int) -> int {
    if last < first {
        0
    } else {
        (last - first) / 7 + 1
    }
}

/// The number of weeks with status `Past`.
pub open spec fn past_count(weeks: Seq<Week>) -> nat
    decreases weeks.len(),
{
    if weeks.len() == 0 {
        0
    } else {
        past_count(weeks.drop_last()) + if weeks.last().status == WeekStatus::Past {
            1nat
        } else {
            0nat
        }
    }
}

/// The index of the week that holds `today` among `count` weeks from day `first` on.
pub open spec fn current_index(first: int, count: int, today: int) -> Option<usize> {
    if first <= today < first + 7 * count {
        Some(((today - first) / 7) as usize)
    } else {
        None
    }
}

/// The label that the week at `index` carries where years are marked: the year, on every
/// week but the first whose year differs from that of the week before.
pub open spec fn year_label(weeks: Seq<Week>, index: int) -> Option<Seq<char>> {
    if index >= 1 && weeks[index].year != weeks[index - 1].year {
        Some(signed_decimal(weeks[index].year as int))
    } else {
        None
    }
}

/// Whether a week's label holds the text `expected`, or is absent with it.
pub open spec fn label_is(label: Option<String>, expected: Option<Seq<char>>) -> bool {
    match (label, expected) {
        (Some(text), Some(wanted)) => text@ == wanted,
        (None, None) => true,
        _ => false,
    }
}

/// Whether the week at `index` carries the label that marks the calendar years.
pub open spec fn label_marks_year(weeks: Seq<Week>, index: int) -> bool {
    label_is(weeks[index].label, year_label(weeks, index))
}

/// Whether `root` is the least natural number whose square reaches `n`.
pub open spec fn is_ceil_sqrt(root: int, n: int) -> bool {
    &&& 0 <= root
    &&& n <= root * root
    &&& root == 0 || (root - 1) * (root - 1) < n
}

/// The number of rows that `total` cells fill at `columns` cells a row.
pub open spec fn rows_for(total: int, columns: int) -> int {
    (total + columns - 1) / columns
}

/// The weeks not yet begun: those after the elapsed ones and the current one.
pub open spec fn remaining_weeks(total: int, elapsed: int) -> int {
    if total >= elapsed + 1 {
        total - elapsed - 1
    } else {
        0
    }
}

/// The Monday of the last week of the next `months` months from `today`.
pub open spec fn next_months_end(today: Date, months: int) -> int {
    monday_of(
        day_number_of_ymd(
            months_later(today.year() as int, today.month() as int, today.day() as int, months),
        ),
    )
}

/// The Monday of the last week of the year of `today`.
pub open spec fn year_end(today: Date) -> int {
    monday_of(day_number_of(today.year() as int, 12, 31))
}

/// The Monday of the last week of a life of `years` years from the date of birth `dob`.
pub open spec fn life_end(dob: Date, years: int) -> int {
    monday_of(
        day_number_of_ymd(
            years_later(dob.year() as int, dob.month() as int, dob.day() as int, years),
        ),
    )
}

/// The age in whole years of 365 days on the day `today` of one born on the day `dob`.
pub open spec fn age_years(dob: int, today: int) -> int {
    (today - dob) / 365
}

impl Week {
    /// Whether this is the week that begins on day `start`, seen from the day `today`.
    pub open spec fn describes(&self, start: int, today: int) -> bool {
        &&& self.start_date.wf()
        &&& self.start_date@ == start
        &&& self.status == status_of(start, today)
        &&& self.year == self.start_date.year()
        &&& self.week_of_year == iso_week_of(
            self.start_date.year() as int,
            self.start_date.month() as int,
            self.start_date.day() as int,
        )
    }
}

impl WeekGrid {
    /// What holds of every grid: each week begins seven days after the one before, the counts
    /// agree with the weeks, the current week is the one the index names, and the grid has
    /// at least one column and one row.
    pub open spec fn wf(&self) -> bool {
        &&& self.total_weeks == self.weeks@.len()
        &&& self.elapsed_weeks == past_count(self.weeks@)
        &&& forall|i: int|
            0 <= i < self.weeks@.len() ==> ((#[trigger] self.weeks@[i]).status
                == WeekStatus::Current <==> self.current_week_index == Some(i as usize))
        &&& forall|i: int|
            0 <= i < self.weeks@.len() ==> (#[trigger] self.weeks@[i]).start_date@
                == self.weeks@[0].start_date@ + 7 * i
        &&& self.columns >= 1
        &&& self.rows >= 1
    }

    /// Whether the weeks are those that begin on day `first`, seven days later, and so on
    /// up to day `last`, seen from the day `today`.
    pub open spec fn spans(&self, first: int, last: int, today: int) -> bool {
        &&& self.weeks@.len() == week_count(first, last)
        &&& forall|i: int|
            0 <= i < self.weeks@.len() ==> (#[trigger] self.weeks@[i]).describes(
                first + 7 * i,
                today,
            )
    }

    /// Whether this is the grid of the next `months` months from `today`: its weeks run
    /// from the week of `today` to the week of the day `months` months later, in a layout
    /// that is close to a square.
    pub open spec fn is_next_months(&self, months: u8, today: Date) -> bool {
        &&& self.wf()
        &&& self.spans(monday_of(today@), next_months_end(today, months as int), today@)
        &&& self.unlabelled()
        &&& self.total_weeks >= 1
        &&& self.elapsed_weeks == 0
        &&& self.current_week_index == Some(0usize)
        &&& is_ceil_sqrt(self.columns as int, self.total_weeks as int)
        &&& self.rows == rows_for(self.total_weeks as int, self.columns as int)
        &&& self.columns * self.rows >= self.total_weeks
        &&& self.title@ == "Next "@ + decimal(months as nat) + " Months"@
        &&& self.subtitle@ == decimal((self.total_weeks - 1) as nat) + " weeks remaining"@
    }

    /// Whether this is the grid of the rest of the year of `today`: its weeks run from the
    /// week of `today` to the week of December 31, in a single row.
    pub open spec fn is_year_end(&self, today: Date) -> bool {
        &&& self.wf()
        &&& self.spans(monday_of(today@), year_end(today), today@)
        &&& self.unlabelled()
        &&& self.total_weeks >= 1
        &&& self.elapsed_weeks == 0
        &&& self.current_week_index == Some(0usize)
        &&& self.columns == self.total_weeks
        &&& self.rows == 1
        &&& self.columns * self.rows >= self.total_weeks
        &&& self.title@ == "Weeks Remaining in "@ + signed_decimal(today.year() as int)
        &&& self.subtitle@ == decimal((self.total_weeks - 1) as nat) + " weeks to go"@
    }

    /// Whether this is the grid of a life of `lifespan_years` years from the date of birth
    /// `dob`, seen from `today`: its weeks run from the week of `dob` to the week of the
    /// day `lifespan_years` years later, 52 to a row, with the calendar years marked.
    pub open spec fn is_life(&self, dob: Date, lifespan_years: u8, today: Date) -> bool {
        &&& self.wf()
        &&& self.spans(monday_of(dob@), life_end(dob, lifespan_years as int), today@)
        &&& self.labelled_by_year()
        &&& self.total_weeks >= 1
        &&& self.columns == 52
        &&& self.rows == rows_for(self.total_weeks as int, 52)
        &&& self.columns * self.rows >= self.total_weeks
        &&& self.title@ == "Life in Weeks (Age "@ + signed_decimal(age_years(dob@, today@))
            + ")"@
        &&& self.subtitle@ == decimal(self.elapsed_weeks as nat) + " of "@ + decimal(
            self.total_weeks as nat,
        ) + " weeks lived ("@ + decimal((self.elapsed_weeks * 100 / self.total_weeks as int) as nat)
            + "%) - "@ + decimal(
            remaining_weeks(self.total_weeks as int, self.elapsed_weeks as int) as nat,
        ) + " remaining"@
    }

    /// Whether no week carries a label.
    pub open spec fn unlabelled(&self) -> bool {
        forall|i: int| 0 <= i < self.weeks@.len() ==> (#[trigger] self.weeks@[i]).label is None
    }

    /// Whether the weeks carry the labels that mark the calendar years.
    pub open spec fn labelled_by_year(&self) -> bool {
        forall|i: int| 0 <= i < self.weeks@.len() ==> #[trigger] label_marks_year(self.weeks@, i)
    }
}

/// No week is past where no week has the status `Past`.
pub proof fn lemma_past_count_zero(weeks: Seq<Week>)
    requires
        forall|i: int| 0 <= i < weeks.len() ==> (#[trigger] weeks[i]).status != WeekStatus::Past,
    ensures
        past_count(weeks) == 0,
    decreases weeks.len(),
{
    if weeks.len() > 0 {
        lemma_past_count_zero(weeks.drop_last());
    }
}

/// There are never more past weeks than weeks.
pub proof fn lemma_past_count_bound(weeks: Seq<Week>)
    ensures
        past_count(weeks) <= weeks.len(),
    decreases weeks.len(),
{
    if weeks.len() > 0 {
        lemma_past_count_bound(weeks.drop_last());
    }
}

/// In a grid each week begins exactly seven days after the week before it, and so a
/// later week begins on a later day.
pub proof fn lemma_weeks_ascending(grid: WeekGrid, i: int, j: int)
    requires
        grid.wf(),
        0 <= i < j < grid.weeks@.len(),
    ensures
        grid.weeks@[i + 1].start_date@ == grid.weeks@[i].start_date@ + 7,
        grid.weeks@[i].start_date@ < grid.weeks@[j].start_date@,
{
}

/// In a grid at most one week is the current one, and the index of the current week
/// names it.
pub proof fn lemma_one_current_week(grid: WeekGrid, i: int, j: int)
    requires
        grid.wf(),
        0 <= i < grid.weeks@.len(),
        0 <= j < grid.weeks@.len(),
        grid.weeks@[i].status == WeekStatus::Current,
        grid.weeks@[j].status == WeekStatus::Current,
    ensures
        i == j,
        grid.current_week_index == Some(i as usize),
{
}

/// The weeks that begin on day `first`, seven days later, and so on up to day `last`,
/// with the index of the current week and the number of past weeks.
fn weeks_between(first: i32, last: i32, today: i32, mark_years: bool) -> (out: (
    Vec<Week>,
    Option<usize>,
    usize,
))
    requires
        MIN_DAY_NUMBER <= first,
        last <= MAX_DAY_NUMBER,
    ensures
        out.0@.len() == week_count(first as int, last as int),
        forall|i: int|
            0 <= i < out.0@.len() ==> (#[trigger] out.0@[i]).describes(first + 7 * i, today as int),
        mark_years ==> forall|i: int|
            0 <= i < out.0@.len() ==> #[trigger] label_marks_year(out.0@, i),
        !mark_years ==> forall|i: int| 0 <= i < out.0@.len() ==> (#[trigger] out.0@[i]).label is None,
        out.1 == current_index(first as int, out.0@.len() as int, today as int),
        out.2 == past_count(out.0@),
{
    let mut weeks: Vec<Week> = Vec::new();
    let mut current: i64 = first as i64;
    let mut current_week_index: Option<usize> = None;
    let mut elapsed: usize = 0;
    let mut last_year: i32 = 0;
    while current <= last as i64
        invariant
            MIN_DAY_NUMBER <= first,
            last <= MAX_DAY_NUMBER,
            current == first + 7 * weeks@.len(),
            current <= last + 7 || weeks@.len() == 0,
            weeks@.len() == week_count(first as int, current - 7),
            forall|i: int|
                0 <= i < weeks@.len() ==> (#[trigger] weeks@[i]).describes(
                    first + 7 * i,
                    today as int,
                ),
            mark_years ==> forall|i: int|
                0 <= i < weeks@.len() ==> #[trigger] label_marks_year(weeks@, i),
            !mark_years ==> forall|i: int|
                0 <= i < weeks@.len() ==> (#[trigger] weeks@[i]).label is None,
            weeks@.len() > 0 ==> last_year == weeks@.last().year,
            current_week_index == current_index(first as int, weeks@.len() as int, today as int),
            elapsed == past_count(weeks@),
            elapsed <= weeks@.len(),
        decreases last + 7 - current,
    {
        let ghost before = weeks@;
        let start_date = Date::from_day_number(current as i32).unwrap();
        let status = if current <= today as i64 && (today as i64) < current + 7 {
            current_week_index = Some(weeks.len());
            WeekStatus::Current
        } else if current < today as i64 {
            elapsed = elapsed + 1;
            WeekStatus::Past
        } else {
            WeekStatus::Future
        };
        let year = start_date.year();
        let label = if mark_years && weeks.len() > 0 && year != last_year {
            Some(signed_decimal_string(year as i64))
        } else {
            None
        };
        last_year = year;
        let week_of_year = start_date.iso_week();
        weeks.push(Week { start_date, status, label, year, week_of_year });
        current = current + 7;
        proof {
            assert(weeks@.drop_last() =~= before);
            if mark_years {
                assert forall|i: int| 0 <= i < weeks@.len() implies #[trigger] label_marks_year(
                    weeks@,
                    i,
                ) by {
                    if i < before.len() {
                        assert(label_marks_year(before, i));
                        assert(weeks@[i] == before[i]);
                        if i >= 1 {
                            assert(weeks@[i - 1] == before[i - 1]);
                        }
                    }
                }
            }
        }
    }
    (weeks, current_week_index, elapsed)
}

/// Whether `name` is one of the names of the window of the next months.
pub open spec fn names_next_months(name: Seq<char>) -> bool {
    name == "next-months"@ || name == "next_months"@ || name == "months"@
}

/// Whether `name` is one of the names of the window to the end of the year.
pub open spec fn names_year_end(name: Seq<char>) -> bool {
    name == "year-end"@ || name == "year_end"@ || name == "year"@
}

/// Whether `name` is one of the names of the window of a life.
pub open spec fn names_life(name: Seq<char>) -> bool {
    name == "life"@ || name == "life-weeks"@ || name == "life_weeks"@
}

/// The window that the lower-case `name` stands for: 6 months and 80 years where no
/// number is given, and no window for a life without a date of birth or for a name that
/// is not known.
pub open spec fn mode_named(
    name: Seq<char>,
    dob: Option<Date>,
    lifespan: Option<u8>,
    months: Option<u8>,
) -> Option<Mode> {
    if names_next_months(name) {
        Some(
            Mode::NextMonths {
                months: match months {
                    Some(m) => m,
                    None => 6,
                },
            },
        )
    } else if names_year_end(name) {
        Some(Mode::YearEnd)
    } else if names_life(name) {
        match dob {
            Some(dob) => Some(
                Mode::Life {
                    dob,
                    lifespan_years: match lifespan {
                        Some(years) => years,
                        None => 80,
                    },
                },
            ),
            None => None,
        }
    } else {
        None
    }
}

/// What is said where the lower-case `name`, given as `given`, stands for no window.
pub open spec fn mode_error(name: Seq<char>, given: Seq<char>) -> Seq<char> {
    if names_life(name) {
        "DOB is required for life mode"@
    } else {
        "Unknown mode: "@ + given + ". Options: next-months, year-end, life"@
    }
}

/// Whether `result` is the window that the lower-case `name`, given as `given`, stands
/// for, or says why there is none.
pub open spec fn is_mode_named(
    result: Result<Mode, String>,
    name: Seq<char>,
    given: Seq<char>,
    dob: Option<Date>,
    lifespan: Option<u8>,
    months: Option<u8>,
) -> bool {
    match result {
        Ok(mode) => mode_named(name, dob, lifespan, months) == Some(mode),
        Err(message) => mode_named(name, dob, lifespan, months) is None && message@
            == mode_error(name, given),
    }
}

impl Mode {
    /// The window that `mode` names, whatever the case of its letters. The numbers `lifespan`
    /// and `months` default to 80 and 6. Fails for a life without a date of birth, and for a
    /// name that is not known.
    pub fn from_str_with_params(
        mode: &str,
        dob: Option<Date>,
        lifespan: Option<u8>,
        months: Option<u8>,
    ) -> (result: Result<Mode, String>)
        ensures
            is_mode_named(result, lowercase_of(mode@), mode@, dob, lifespan, months),
    {
        let name = to_lowercase(mode);
        Self::from_lowercase(name.as_str(), mode, dob, lifespan, months)
    }

    /// The window that the lower-case `name` stands for; `given` is the name as it was
    /// written, for the message where it is not known.
    pub fn from_lowercase(
        name: &str,
        given: &str,
        dob: Option<Date>,
        lifespan: Option<u8>,
        months: Option<u8>,
    ) -> (result: Result<Mode, String>)
        ensures
            is_mode_named(result, name@, given@, dob, lifespan, months),
    {
        if same_text(name, "next-months") || same_text(name, "next_months") || same_text(
            name,
            "months",
        ) {
            Ok(Mode::NextMonths { months: months.unwrap_or(6) })
        } else if same_text(name, "year-end") || same_text(name, "year_end") || same_text(
            name,
            "year",
        ) {
            Ok(Mode::YearEnd)
        } else if same_text(name, "life") || same_text(name, "life-weeks") || same_text(
            name,
            "life_weeks",
        ) {
            match dob {
                Some(dob) => Ok(Mode::Life { dob, lifespan_years: lifespan.unwrap_or(80) }),
                None => Err(String::from_str("DOB is required for life mode")),
            }
        } else {
            let mut message = String::from_str("Unknown mode: ");
            message.append(given);
            message.append(". Options: next-months, year-end, life");
            Err(message)
        }
    }

    /// Whether the weeks of this window, seen from `today`, are all dates that a [`Date`]
    /// can hold.
    pub open spec fn in_range(&self, today: Date) -> bool {
        match *self {
            Mode::NextMonths { months } => {
                &&& monday_of(today@) >= MIN_DAY_NUMBER
                &&& today.year() + (today.month() + months - 1) / 12 <= MAX_YEAR
            },
            Mode::YearEnd => monday_of(today@) >= MIN_DAY_NUMBER,
            Mode::Life { dob, lifespan_years } => {
                &&& monday_of(dob@) >= MIN_DAY_NUMBER
                &&& dob.year() + lifespan_years <= MAX_YEAR
            },
        }
    }
}

impl Mode {
    /// Whether the weeks of this window, seen from `today`, are all dates that a [`Date`]
    /// can hold.
    pub fn supports(&self, today: Date) -> (supported: bool)
        ensures
            supported == self.in_range(today),
    {
        match self {
            Mode::NextMonths { months } => {
                today.day_number() as i64 - today.weekday() as i64 >= MIN_DAY_NUMBER as i64
                    && today.year() as i64 + (today.month() as i64 + *months as i64 - 1) / 12
                    <= MAX_YEAR as i64
            },
            Mode::YearEnd => today.day_number() as i64 - today.weekday() as i64
                >= MIN_DAY_NUMBER as i64,
            Mode::Life { dob, lifespan_years } => {
                dob.day_number() as i64 - dob.weekday() as i64 >= MIN_DAY_NUMBER as i64
                    && dob.year() as i64 + *lifespan_years as i64 <= MAX_YEAR as i64
            },
        }
    }
}

impl WeekGrid {
    /// The grid of the weeks of the window `mode`, seen from `today`; none where the
    /// window reaches beyond the dates that a [`Date`] can hold.
    pub fn try_calculate(mode: &Mode, today: Date) -> (grid: Option<WeekGrid>)
        ensures
            grid is Some <==> mode.in_range(today),
            grid matches Some(g) ==> g.wf() && match *mode {
                Mode::NextMonths { months } => g.is_next_months(months, today),
                Mode::YearEnd => g.is_year_end(today),
                Mode::Life { dob, lifespan_years } => g.is_life(dob, lifespan_years, today),
            },
    {
        if mode.supports(today) {
            Some(Self::calculate(mode, today))
        } else {
            None
        }
    }

    /// The grid of the weeks of the window `mode`, seen from `today`.
    pub fn calculate(mode: &Mode, today: Date) -> (grid: WeekGrid)
        requires
            mode.in_range(today),
        ensures
            grid.wf(),
            match *mode {
                Mode::NextMonths { months } => grid.is_next_months(months, today),
                Mode::YearEnd => grid.is_year_end(today),
                Mode::Life { dob, lifespan_years } => grid.is_life(dob, lifespan_years, today),
            },
    {
        match mode {
            Mode::NextMonths { months } => Self::calculate_next_months(*months, today),
            Mode::YearEnd => Self::calculate_year_end(today),
            Mode::Life { dob, lifespan_years } => Self::calculate_life(
                *dob,
                *lifespan_years,
                today,
            ),
        }
    }

    /// The grid of the next `months` months from `today`. With no months at all it is the
    /// one week of `today`.
    pub fn calculate_next_months(months: u8, today: Date) -> (grid: WeekGrid)
        requires
            monday_of(today@) >= MIN_DAY_NUMBER,
            today.year() + (today.month() + months - 1) / 12 <= MAX_YEAR,
        ensures
            grid.is_next_months(months, today),
    {
        proof {
            use_type_invariant(today);
            lemma_months_later_order(
                today.year() as int,
                today.month() as int,
                today.day() as int,
                months as int,
            );
        }
        let start = week_start(today);
        let end_date = add_months(today, months as i32);
        let end = week_start(end_date);
        let (weeks, current_week_index, elapsed_weeks) = weeks_between(
            start.day_number(),
            end.day_number(),
            today.day_number(),
            false,
        );
        proof {
            lemma_past_count_zero(weeks@);
        }
        let total_weeks = weeks.len();
        let columns = ceil_sqrt(total_weeks);
        assert(columns >= 1) by {
            assert(0 * 0 == 0);
        }
        let rows = div_ceil(total_weeks, columns);
        let mut title = String::from_str("Next ");
        push_decimal(&mut title, months as u64);
        title.append(" Months");
        let mut subtitle = decimal_string((total_weeks - elapsed_weeks - 1) as u64);
        subtitle.append(" weeks remaining");
        WeekGrid {
            weeks,
            total_weeks,
            elapsed_weeks,
            current_week_index,
            columns,
            rows,
            title,
            subtitle,
        }
    }

    /// The grid of the weeks from `today` to the end of its year.
    pub fn calculate_year_end(today: Date) -> (grid: WeekGrid)
        requires
            monday_of(today@) >= MIN_DAY_NUMBER,
        ensures
            grid.is_year_end(today),
    {
        proof {
            use_type_invariant(today);
            if today.month() != 12 || today.day() != 31 {
                crate::calendar::lemma_day_number_order(
                    today.year() as int,
                    today.month() as int,
                    today.day() as int,
                    today.year() as int,
                    12,
                    31,
                );
            }
        }
        let start = week_start(today);
        let year_end = Date::from_ymd_opt(today.year(), 12, 31).unwrap();
        let end = week_start(year_end);
        let (weeks, current_week_index, elapsed_weeks) = weeks_between(
            start.day_number(),
            end.day_number(),
            today.day_number(),
            false,
        );
        proof {
            lemma_past_count_zero(weeks@);
        }
        let total_weeks = weeks.len();
        let remaining = total_weeks - elapsed_weeks - 1;
        let columns = total_weeks;
        let rows: usize = 1;
        let mut title = String::from_str("Weeks Remaining in ");
        push_signed_decimal(&mut title, today.year() as i64);
        let mut subtitle = decimal_string(remaining as u64);
        subtitle.append(" weeks to go");
        WeekGrid {
            weeks,
            total_weeks,
            elapsed_weeks,
            current_week_index,
            columns,
            rows,
            title,
            subtitle,
        }
    }

    /// The grid of a life of `lifespan_years` years from the date of birth `dob`, seen
    /// from `today`. With no years at all it is the one week of `dob`. The weeks that
    /// remain are counted without the current one, and are none once the life is over.
    pub fn calculate_life(dob: Date, lifespan_years: u8, today: Date) -> (grid: WeekGrid)
        requires
            monday_of(dob@) >= MIN_DAY_NUMBER,
            dob.year() + lifespan_years <= MAX_YEAR,
        ensures
            grid.is_life(dob, lifespan_years, today),
    {
        proof {
            use_type_invariant(dob);
            lemma_years_later_order(
                dob.year() as int,
                dob.month() as int,
                dob.day() as int,
                lifespan_years as int,
            );
        }
        let start = week_start(dob);
        let expected_end = add_years(dob, lifespan_years as i32);
        let end = week_start(expected_end);
        let (weeks, current_week_index, elapsed_weeks) = weeks_between(
            start.day_number(),
            end.day_number(),
            today.day_number(),
            true,
        );
        proof {
            lemma_past_count_bound(weeks@);
        }
        let total_weeks = weeks.len();
        let columns: usize = 52;
        let rows = div_ceil(total_weeks, columns);
        let title = life_title(dob.day_number(), today.day_number());
        let subtitle = life_subtitle(elapsed_weeks, total_weeks);
        WeekGrid {
            weeks,
            total_weeks,
            elapsed_weeks,
            current_week_index,
            columns,
            rows,
            title,
            subtitle,
        }
    }
}

/// The title of the grid of a life: the age in whole years of 365 days.
fn life_title(dob: i32, today: i32) -> (title: String)
    ensures
        title@ == "Life in Weeks (Age "@ + signed_decimal(age_years(dob as int, today as int))
            + ")"@,
{
    let lived_days: i64 = today as i64 - dob as i64;
    let age: i64 = if lived_days >= 0 {
        lived_days / 365
    } else {
        -((364 - lived_days) / 365)
    };
    let mut title = String::from_str("Life in Weeks (Age ");
    push_signed_decimal(&mut title, age);
    title.append(")");
    title
}

/// The subtitle of the grid of a life: the weeks lived, all weeks, the share lived in
/// whole percent, and the weeks that remain.
fn life_subtitle(elapsed_weeks: usize, total_weeks: usize) -> (subtitle: String)
    requires
        elapsed_weeks <= total_weeks,
        1 <= total_weeks <= 0xFFFF_FFFF,
    ensures
        subtitle@ == decimal(elapsed_weeks as nat) + " of "@ + decimal(total_weeks as nat)
            + " weeks lived ("@ + decimal((elapsed_weeks * 100 / total_weeks as int) as nat)
            + "%) - "@ + decimal(
            remaining_weeks(total_weeks as int, elapsed_weeks as int) as nat,
        ) + " remaining"@,
{
    let remaining = if total_weeks > elapsed_weeks {
        total_weeks - elapsed_weeks - 1
    } else {
        0
    };
    let percentage: u64 = elapsed_weeks as u64 * 100 / total_weeks as u64;
    let mut subtitle = decimal_string(elapsed_weeks as u64);
    subtitle.append(" of ");
    push_decimal(&mut subtitle, total_weeks as u64);
    subtitle.append(" weeks lived (");
    push_decimal(&mut subtitle, percentage);
    subtitle.append("%) - ");
    push_decimal(&mut subtitle, remaining as u64);
    subtitle.append(" remaining");
    subtitle
}

/// The square of `n`.
fn square(n: usize) -> (product: u128)
    ensures
        product == n * n,
{
    assert(n * n <= 0xFFFF_FFFF_FFFF_FFFF * 0xFFFF_FFFF_FFFF_FFFF) by (nonlinear_arith)
        requires
            0 <= n <= 0xFFFF_FFFF_FFFF_FFFF,
    ;
    (n as u128) * (n as u128)
}

/// The least number whose square reaches `n`.
pub fn ceil_sqrt(n: usize) -> (root: usize)
    ensures
        is_ceil_sqrt(root as int, n as int),
{
    let mut root: usize = 0;
    while square(root) < n as u128
        invariant
            root == 0 || (root - 1) * (root - 1) < n,
        decreases usize::MAX - root,
    {
        assert(root < usize::MAX) by (nonlinear_arith)
            requires
                root * root < n,
                n <= usize::MAX,
                0 <= root <= usize::MAX,
        ;
        root = root + 1;
    }
    root
}

/// The number of rows that `total` cells fill at `columns` cells a row.
pub fn div_ceil(total: usize, columns: usize) -> (rows: usize)
    requires
        columns >= 1,
    ensures
        rows == rows_for(total as int, columns as int),
        columns * rows >= total,
        total >= 1 ==> rows >= 1,
{
    let ghost t = total as int;
    let ghost c = columns as int;
    if total == 0 {
        proof {
            vstd::arithmetic::div_mod::lemma_fundamental_div_mod_converse(c - 1, c, 0, c - 1);
        }
        return 0;
    }
    let whole = (total - 1) / columns;
    proof {
        let q = whole as int;
        let r = (t - 1) % c;
        vstd::arithmetic::div_mod::lemma_fundamental_div_mod(t - 1, c);
        assert(q <= t - 1 && c * (q + 1) >= t && t + c - 1 == (q + 1) * c + r)
            by (nonlinear_arith)
            requires
                t - 1 == c * q + r,
                0 <= r < c,
                q >= 0,
        ;
        vstd::arithmetic::div_mod::lemma_fundamental_div_mod_converse(t + c - 1, c, q + 1, r);
    }
    whole + 1
}

} // verus!
