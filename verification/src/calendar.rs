//! Calendar dates of the proleptic Gregorian calendar and the arithmetic on them.
//!
//! A [`Date`] is a year, a month and a day. Its mathematical model is its day number:
//! the count of days since the day before January 1 of year 1. Day numbers, weekdays and
//! ISO week numbers are computed by `chrono`; what is assumed of `chrono` is stated on
//! the private functions at the end of this file.

use chrono::Datelike;
use vstd::prelude::*;

verus! {

/// The earliest year a [`Date`] can hold.
pub const MIN_YEAR: i32 = -262_143;

/// The latest year a [`Date`] can hold.
pub const MAX_YEAR: i32 = 262_142;

/// The day number of January 1 of [`MIN_YEAR`].
pub const MIN_DAY_NUMBER: i32 = -95_746_129;

/// The day number of December 31 of [`MAX_YEAR`].
pub const MAX_DAY_NUMBER: i32 = 95_745_399;

/// Whether `year` is a leap year of the Gregorian calendar.
pub open spec fn is_leap(year: int) -> bool {
    (year % 4 == 0 && year % 100 != 0) || year % 400 == 0
}

/// The number of days of `month` in `year`; 30 for a month outside 1..=12.
pub open spec fn month_length(year: int, month: int) -> int {
    if month == 2 {
        if is_leap(year) {
            29
        } else {
            28
        }
    } else if month == 4 || month == 6 || month == 9 || month == 11 {
        30
    } else if 1 <= month <= 12 {
        31
    } else {
        30
    }
}

/// Whether the calendar has the day `day` of `month` in `year`, and a [`Date`] can hold it.
pub open spec fn valid_ymd(year: int, month: int, day: int) -> bool {
    &&& MIN_YEAR <= year <= MAX_YEAR
    &&& 1 <= month <= 12
    &&& 1 <= day <= month_length(year, month)
}

/// The number of days from January 1 of year 1 up to, and without, January 1 of `year`.
pub open spec fn days_before_year(year: int) -> int {
    365 * (year - 1) + (year - 1) / 4 - (year - 1) / 100 + (year - 1) / 400
}

/// The number of days of `year` that lie before the first of `month`.
pub open spec fn days_before_month(year: int, month: int) -> int
    decreases month,
{
    if month <= 1 {
        0
    } else {
        days_before_month(year, month - 1) + month_length(year, month - 1)
    }
}

/// The day number of a calendar day: January 1 of year 1 is day 1.
pub open spec fn day_number_of(year: int, month: int, day: int) -> int {
    days_before_year(year) + days_before_month(year, month) + day
}

/// The weekday of the day with number `days`, counted from Monday as 0.
pub open spec fn weekday_of(days: int) -> int {
    (days - 1) % 7
}

/// The day number of the Monday that begins the week of the day with number `days`.
pub open spec fn monday_of(days: int) -> int {
    days - weekday_of(days)
}

/// The ISO 8601 week number of a calendar day, as `chrono` computes it.
pub uninterp spec fn iso_week_of(year: int, month: int, day: int) -> int;

/// The year, month and day that a text of the form `YYYY-MM-DD` stands for, as `chrono`
/// reads it; none where `chrono` does not take the text for a date.
pub uninterp spec fn date_of_text(text: Seq<char>) -> Option<(int, int, int)>;

/// A year, month and day in the form `YYYY-MM-DD`, as `chrono` writes it.
pub uninterp spec fn text_of_date(year: int, month: int, day: int) -> Seq<char>;

#[verifier::external_type_specification]
#[verifier::external_body]
pub struct ExParseError(chrono::ParseError);

/// Whether `year` is a leap year.
pub fn is_leap_year(year: i32) -> (leap: bool)
    ensures
        leap == is_leap(year as int),
{
    // A multiple of 400 that lifts every `i32` above zero.
    let lifted: u64 = (year as i64 + 2_147_484_000) as u64;
    assert(lifted == year + 400 * 5_368_710);
    (lifted % 4 == 0 && lifted % 100 != 0) || (lifted % 400 == 0)
}

/// The number of days of `month` in `year`; 30 for a month outside 1..=12.
pub fn days_in_month(year: i32, month: u32) -> (days: u32)
    ensures
        days == month_length(year as int, month as int),
{
    match month {
        1 | 3 | 5 | 7 | 8 | 10 | 12 => 31,
        4 | 6 | 9 | 11 => 30,
        2 => {
            if is_leap_year(year) {
                29
            } else {
                28
            }
        },
        _ => 30,
    }
}

/// A day of the proleptic Gregorian calendar between the years [`MIN_YEAR`] and
/// [`MAX_YEAR`].
#[derive(Clone, Copy, Debug, PartialEq, Eq, Hash, Structural)]
pub struct Date {
    year: i32,
    month: u32,
    day: u32,
}

impl View for Date {
    type V = int;

    /// The model of a date: its day number.
    open spec fn view(&self) -> int {
        day_number_of(self.year() as int, self.month() as int, self.day() as int)
    }
}

impl Date {
    /// The year.
    pub closed spec fn spec_year(&self) -> i32 {
        self.year
    }

    /// The month.
    pub closed spec fn spec_month(&self) -> u32 {
        self.month
    }

    /// The day of the month.
    pub closed spec fn spec_day(&self) -> u32 {
        self.day
    }

    /// Every date is a day that the calendar has.
    #[verifier::type_invariant]
    pub open spec fn wf(&self) -> bool {
        valid_ymd(self.year() as int, self.month() as int, self.day() as int)
    }

    /// The weekday, counted from Monday as 0.
    pub open spec fn spec_weekday(&self) -> u32 {
        weekday_of(self@) as u32
    }

    /// The date of `day` of `month` in `year`, if the calendar has that day.
    pub fn from_ymd_opt(year: i32, month: u32, day: u32) -> (date: Option<Date>)
        ensures
            date is Some <==> valid_ymd(year as int, month as int, day as int),
            date matches Some(d) ==> d.wf() && d.year() == year && d.month() == month && d.day()
                == day,
    {
        if year < MIN_YEAR || year > MAX_YEAR || month < 1 || month > 12 || day < 1 {
            return None;
        }
        if day > days_in_month(year, month) {
            return None;
        }
        Some(Date { year, month, day })
    }

    /// The year.
    #[verifier::when_used_as_spec(spec_year)]
    pub fn year(&self) -> (year: i32)
        ensures
            year == self.spec_year(),
    {
        self.year
    }

    /// The month, from 1 to 12.
    #[verifier::when_used_as_spec(spec_month)]
    pub fn month(&self) -> (month: u32)
        ensures
            month == self.spec_month(),
            1 <= month <= 12,
    {
        proof {
            use_type_invariant(self);
        }
        self.month
    }

    /// The day of the month, from 1.
    #[verifier::when_used_as_spec(spec_day)]
    pub fn day(&self) -> (day: u32)
        ensures
            day == self.spec_day(),
            1 <= day <= 31,
    {
        proof {
            use_type_invariant(self);
        }
        self.day
    }

    /// The day number: January 1 of year 1 is day 1.
    pub fn day_number(&self) -> (days: i32)
        ensures
            days == self@,
            MIN_DAY_NUMBER <= days <= MAX_DAY_NUMBER,
    {
        proof {
            use_type_invariant(self);
            lemma_day_number_range(self.year() as int, self.month() as int, self.day() as int);
        }
        chrono_day_number(self.year, self.month, self.day)
    }

    /// The date with the day number `days`, if it lies between [`MIN_DAY_NUMBER`] and
    /// [`MAX_DAY_NUMBER`].
    pub fn from_day_number(days: i32) -> (date: Option<Date>)
        ensures
            date is Some <==> MIN_DAY_NUMBER <= days <= MAX_DAY_NUMBER,
            date matches Some(d) ==> d.wf() && d@ == days,
    {
        let date = chrono_date_of(days);
        proof {
            if let Some(d) = date {
                use_type_invariant(d);
            }
        }
        date
    }

    /// The weekday, counted from Monday as 0.
    #[verifier::when_used_as_spec(spec_weekday)]
    pub fn weekday(&self) -> (weekday: u32)
        ensures
            weekday == self.spec_weekday(),
            weekday < 7,
    {
        proof {
            use_type_invariant(self);
        }
        chrono_weekday(self.year, self.month, self.day)
    }

    /// The year, month and day of the date.
    pub open spec fn ymd(&self) -> (int, int, int) {
        (self.year() as int, self.month() as int, self.day() as int)
    }

    /// The date of a year, month and day.
    pub closed spec fn of_ymd(ymd: (int, int, int)) -> Date {
        Date { year: ymd.0 as i32, month: ymd.1 as u32, day: ymd.2 as u32 }
    }

    /// The date that a text of the form `YYYY-MM-DD` stands for; none where it stands for
    /// none.
    pub open spec fn of_text(text: Seq<char>) -> Option<Date> {
        match date_of_text(text) {
            Some(ymd) => Some(Date::of_ymd(ymd)),
            None => None,
        }
    }

    /// Reads a date from a text of the form `YYYY-MM-DD`.
    pub fn parse(text: &str) -> (date: Option<Date>)
        ensures
            match date {
                Some(d) => d.wf() && date_of_text(text@) == Some(d.ymd()),
                None => date_of_text(text@) is None,
            },
            date == Date::of_text(text@),
    {
        match chrono_parse(text) {
            Ok(date) => {
                proof {
                    use_type_invariant(date);
                }
                Some(date)
            },
            Err(_) => None,
        }
    }

    /// The date in the form `YYYY-MM-DD`.
    pub fn format(&self) -> (text: String)
        ensures
            text@ == text_of_date(self.year() as int, self.month() as int, self.day() as int),
    {
        proof {
            use_type_invariant(self);
        }
        chrono_format(self.year, self.month, self.day)
    }

    /// The ISO 8601 week number, from 1 to 53.
    pub fn iso_week(&self) -> (week: u32)
        ensures
            week == iso_week_of(self.year() as int, self.month() as int, self.day() as int),
            1 <= week <= 53,
    {
        proof {
            use_type_invariant(self);
        }
        chrono_iso_week(self.year, self.month, self.day)
    }
}

/// The year, month and day that lie `months` calendar months after those given: the day
/// is kept unless the month reached is shorter, and then it is that month's last day.
pub open spec fn months_later(year: int, month: int, day: int, months: int) -> (int, int, int) {
    let year_reached = year + (month + months - 1) / 12;
    let month_reached = (month + months - 1) % 12 + 1;
    let longest = month_length(year_reached, month_reached);
    (year_reached, month_reached, if day <= longest { day } else { longest })
}

/// The year, month and day that lie `years` calendar years after those given: the day is
/// kept unless the month is shorter in the year reached, and then it is that month's
/// last day.
pub open spec fn years_later(year: int, month: int, day: int, years: int) -> (int, int, int) {
    let longest = month_length(year + years, month);
    (year + years, month, if day <= longest { day } else { longest })
}

/// The Monday of the week that holds `date`.
pub fn week_start(date: Date) -> (monday: Date)
    requires
        monday_of(date@) >= MIN_DAY_NUMBER,
    ensures
        monday.wf(),
        monday@ == monday_of(date@),
        monday.weekday() == 0,
        monday@ <= date@ < monday@ + 7,
{
    let days_since_monday = date.weekday();
    let days = date.day_number();
    let monday = Date::from_day_number(days - days_since_monday as i32);
    monday.unwrap()
}

/// The date `months` calendar months after `date`, its day clamped to the month reached.
pub fn add_months(date: Date, months: i32) -> (later: Date)
    requires
        1 <= date.month() + months,
        date.year() + (date.month() + months - 1) / 12 <= MAX_YEAR,
    ensures
        later.wf(),
        (later.year() as int, later.month() as int, later.day() as int) == months_later(
            date.year() as int,
            date.month() as int,
            date.day() as int,
            months as int,
        ),
{
    proof {
        use_type_invariant(date);
    }
    let total_months: i64 = date.month() as i64 + months as i64;
    let years_to_add: i64 = (total_months - 1) / 12;
    let new_month: u32 = ((total_months - 1) % 12 + 1) as u32;
    let new_year: i32 = (date.year() as i64 + years_to_add) as i32;
    let max_day = days_in_month(new_year, new_month);
    let new_day = if date.day() <= max_day {
        date.day()
    } else {
        max_day
    };
    Date::from_ymd_opt(new_year, new_month, new_day).unwrap()
}

/// The date `years` calendar years after `date`, its day clamped to the month's length in
/// the year reached.
pub fn add_years(date: Date, years: i32) -> (later: Date)
    requires
        MIN_YEAR <= date.year() + years <= MAX_YEAR,
    ensures
        later.wf(),
        (later.year() as int, later.month() as int, later.day() as int) == years_later(
            date.year() as int,
            date.month() as int,
            date.day() as int,
            years as int,
        ),
{
    proof {
        use_type_invariant(date);
    }
    let new_year: i32 = (date.year() as i64 + years as i64) as i32;
    let max_day = days_in_month(new_year, date.month());
    let new_day = if date.day() <= max_day {
        date.day()
    } else {
        max_day
    };
    Date::from_ymd_opt(new_year, date.month(), new_day).unwrap()
}

/// The Monday of a week is a Monday, lies in that week, and has itself as its Monday:
/// taking the start of a week twice gives what taking it once gives.
pub proof fn lemma_monday_of(days: int)
    ensures
        weekday_of(monday_of(days)) == 0,
        monday_of(days) <= days < monday_of(days) + 7,
        monday_of(monday_of(days)) == monday_of(days),
{
}

/// Whether the first calendar day comes before the second.
pub open spec fn ymd_before(y1: int, m1: int, d1: int, y2: int, m2: int, d2: int) -> bool {
    y1 < y2 || (y1 == y2 && (m1 < m2 || (m1 == m2 && d1 < d2)))
}

/// Day numbers keep the order of the calendar: of two days that the calendar has, the one
/// that comes first has the smaller day number. So no two dates share a day number.
pub proof fn lemma_day_number_order(y1: int, m1: int, d1: int, y2: int, m2: int, d2: int)
    requires
        1 <= m1 <= 12,
        1 <= d1 <= month_length(y1, m1),
        1 <= m2 <= 12,
        1 <= d2 <= month_length(y2, m2),
        ymd_before(y1, m1, d1, y2, m2, d2),
    ensures
        day_number_of(y1, m1, d1) < day_number_of(y2, m2, d2),
{
    lemma_days_before_month(y1, m1);
    lemma_days_before_month(y2, m2);
    if y1 < y2 {
        lemma_year_length(y1);
        lemma_days_before_year_order(y1 + 1, y2);
    }
}

/// A year has 365 days, and one more if it is a leap year.
pub proof fn lemma_year_length(year: int)
    ensures
        days_before_year(year + 1) == days_before_year(year) + 365 + (if is_leap(year) {
            1int
        } else {
            0
        }),
{
}

/// A later year begins on a later day.
pub proof fn lemma_days_before_year_order(y1: int, y2: int)
    requires
        y1 <= y2,
    ensures
        days_before_year(y1) <= days_before_year(y2),
        days_before_year(y1) + 365 * (y2 - y1) <= days_before_year(y2),
    decreases y2 - y1,
{
    if y1 < y2 {
        lemma_year_length(y2 - 1);
        lemma_days_before_year_order(y1, y2 - 1);
    }
}

/// The day number of a year, month and day given as one value.
pub open spec fn day_number_of_ymd(ymd: (int, int, int)) -> int {
    day_number_of(ymd.0, ymd.1, ymd.2)
}

/// Going on by a number of months that is not negative never leads to an earlier day.
pub proof fn lemma_months_later_order(year: int, month: int, day: int, months: int)
    requires
        1 <= month <= 12,
        1 <= day <= month_length(year, month),
        0 <= months,
    ensures
        day_number_of(year, month, day) <= day_number_of_ymd(
            months_later(year, month, day, months),
        ),
{
    let (y, m, d) = months_later(year, month, day, months);
    if ymd_before(year, month, day, y, m, d) {
        lemma_day_number_order(year, month, day, y, m, d);
    }
}

/// Going on by a number of years that is not negative never leads to an earlier day.
pub proof fn lemma_years_later_order(year: int, month: int, day: int, years: int)
    requires
        1 <= month <= 12,
        1 <= day <= month_length(year, month),
        0 <= years,
    ensures
        day_number_of(year, month, day) <= day_number_of_ymd(years_later(year, month, day, years)),
{
    let (y, m, d) = years_later(year, month, day, years);
    if ymd_before(year, month, day, y, m, d) {
        lemma_day_number_order(year, month, day, y, m, d);
    }
}

/// Two dates with the same day number are the same date.
pub proof fn lemma_day_number_injective(a: Date, b: Date)
    requires
        a.wf(),
        b.wf(),
        a@ == b@,
    ensures
        a.year() == b.year(),
        a.month() == b.month(),
        a.day() == b.day(),
{
    let (y1, m1, d1) = (a.year() as int, a.month() as int, a.day() as int);
    let (y2, m2, d2) = (b.year() as int, b.month() as int, b.day() as int);
    if ymd_before(y1, m1, d1, y2, m2, d2) {
        lemma_day_number_order(y1, m1, d1, y2, m2, d2);
    } else if ymd_before(y2, m2, d2, y1, m1, d1) {
        lemma_day_number_order(y2, m2, d2, y1, m1, d1);
    }
}

/// The start of the week of a week's start is that start: where `monday` begins the week
/// of `date`, and `again` begins the week of `monday`, the two are the same day.
pub proof fn lemma_week_start_idempotent(date: Date, monday: Date, again: Date)
    requires
        date.wf(),
        monday.wf(),
        again.wf(),
        monday@ == monday_of(date@),
        again@ == monday_of(monday@),
    ensures
        again.ymd() == monday.ymd(),
{
    lemma_monday_of(date@);
    lemma_day_number_injective(again, monday);
}

/// One month after January 31 is the last day of February: the 29th in a leap year, and
/// the 28th in any other year.
pub proof fn lemma_month_after_january_31(year: int)
    ensures
        months_later(year, 1, 31, 1) == (year, 2int, if is_leap(year) {
            29int
        } else {
            28int
        }),
{
}

/// Any number of years after a February 29 is the last day of February of the year
/// reached: the 28th where that year is no leap year.
pub proof fn lemma_years_after_leap_day(year: int, years: int)
    ensures
        years_later(year, 2, 29, years) == (year + years, 2int, if is_leap(year + years) {
            29int
        } else {
            28int
        }),
{
}

/// The day numbers of the dates that the calendar has lie between [`MIN_DAY_NUMBER`] and
/// [`MAX_DAY_NUMBER`].
pub proof fn lemma_day_number_range(year: int, month: int, day: int)
    requires
        valid_ymd(year, month, day),
    ensures
        MIN_DAY_NUMBER <= day_number_of(year, month, day) <= MAX_DAY_NUMBER,
{
    lemma_days_before_month(year, month);
}

/// The days of a year that lie before the first of each month.
pub proof fn lemma_days_before_month(year: int, month: int)
    requires
        1 <= month <= 12,
    ensures
        days_before_month(year, month) == (if month == 1 {
            0int
        } else if month == 2 {
            31
        } else {
            (if is_leap(year) {
                1int
            } else {
                0
            }) + (if month == 3 {
                59int
            } else if month == 4 {
                90
            } else if month == 5 {
                120
            } else if month == 6 {
                151
            } else if month == 7 {
                181
            } else if month == 8 {
                212
            } else if month == 9 {
                243
            } else if month == 10 {
                273
            } else if month == 11 {
                304
            } else {
                334
            })
        }),
{
    reveal_with_fuel(days_before_month, 13);
}

/// `chrono::Datelike::num_days_from_ce` of the `chrono::NaiveDate` that
/// `NaiveDate::from_ymd_opt` makes of a valid year, month and day. Assumed: it counts the
/// days of the proleptic Gregorian calendar with January 1 of year 1 as day 1, which is
/// what [`day_number_of`] states in closed form.
#[verifier::external_body]
fn chrono_day_number(year: i32, month: u32, day: u32) -> (days: i32)
    requires
        valid_ymd(year as int, month as int, day as int),
    ensures
        days == day_number_of(year as int, month as int, day as int),
{
    chrono::NaiveDate::from_ymd_opt(year, month, day).unwrap().num_days_from_ce()
}

/// `chrono::NaiveDate::from_num_days_from_ce_opt`, with the year, month and day of the
/// date it returns. Assumed: it returns a date exactly for the day numbers from that of
/// January 1 of [`MIN_YEAR`] to that of December 31 of [`MAX_YEAR`], and the date it
/// returns is the calendar day with the day number asked for.
#[verifier::external_body]
fn chrono_date_of(days: i32) -> (date: Option<Date>)
    ensures
        date is Some <==> MIN_DAY_NUMBER <= days <= MAX_DAY_NUMBER,
        date matches Some(d) ==> d@ == days,
{
    match chrono::NaiveDate::from_num_days_from_ce_opt(days) {
        Some(d) => Some(Date { year: d.year(), month: d.month(), day: d.day() }),
        None => None,
    }
}

/// `chrono::Datelike::weekday` of the `chrono::NaiveDate` of a valid year, month and day,
/// as the number that `chrono::Weekday::num_days_from_monday` gives. Assumed: January 1
/// of year 1 is a Monday, and the weekdays follow each other day by day.
#[verifier::external_body]
fn chrono_weekday(year: i32, month: u32, day: u32) -> (weekday: u32)
    requires
        valid_ymd(year as int, month as int, day as int),
    ensures
        weekday == weekday_of(day_number_of(year as int, month as int, day as int)),
{
    chrono::NaiveDate::from_ymd_opt(year, month, day).unwrap().weekday().num_days_from_monday()
}

/// `chrono::NaiveDate::parse_from_str` with the format `%Y-%m-%d`, with the year, month
/// and day of the date it returns. Assumed: whether it returns a date, and which, depends
/// on the characters of the text alone.
#[verifier::external_body]
fn chrono_parse(text: &str) -> (date: Result<Date, chrono::ParseError>)
    ensures
        match date {
            Ok(d) => date_of_text(text@) == Some(d.ymd()),
            Err(_) => date_of_text(text@) is None,
        },
{
    match chrono::NaiveDate::parse_from_str(text, "%Y-%m-%d") {
        Ok(d) => Ok(Date { year: d.year(), month: d.month(), day: d.day() }),
        Err(e) => Err(e),
    }
}

/// `chrono::NaiveDate::format` with the format `%Y-%m-%d`, made a string, of the
/// `chrono::NaiveDate` of a valid year, month and day. Assumed: the text depends on the
/// date alone.
#[verifier::external_body]
fn chrono_format(year: i32, month: u32, day: u32) -> (text: String)
    requires
        valid_ymd(year as int, month as int, day as int),
    ensures
        text@ == text_of_date(year as int, month as int, day as int),
{
    chrono::NaiveDate::from_ymd_opt(year, month, day).unwrap().format("%Y-%m-%d").to_string()
}

/// `chrono::Datelike::iso_week` of the `chrono::NaiveDate` of a valid year, month and day,
/// as the number that `chrono::IsoWeek::week` gives. Assumed: the number depends on the
/// date alone and lies between 1 and 53.
#[verifier::external_body]
fn chrono_iso_week(year: i32, month: u32, day: u32) -> (week: u32)
    requires
        valid_ymd(year as int, month as int, day as int),
    ensures
        week == iso_week_of(year as int, month as int, day as int),
        1 <= week <= 53,
{
    chrono::NaiveDate::from_ymd_opt(year, month, day).unwrap().iso_week().week()
}

} // verus!
