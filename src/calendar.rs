//! Calendar dates as plain values, the proleptic Gregorian day count that
//! orders them, and the few operations that are delegated to `chrono`.
use chrono::Datelike;
use vstd::prelude::*;

use crate::date_system::DateSystem;

verus! {

/// Smallest year that `chrono::NaiveDate` can represent.
pub const MIN_YEAR: i32 = -262143;

/// Largest year that `chrono::NaiveDate` can represent.
pub const MAX_YEAR: i32 = 262142;

pub open spec fn is_leap_year(year: int) -> bool {
    (year % 4 == 0 && year % 100 != 0) || year % 400 == 0
}

pub open spec fn days_in_month_spec(year: int, month: int) -> int {
    if month == 2 {
        if is_leap_year(year) { 29 } else { 28 }
    } else if month == 4 || month == 6 || month == 9 || month == 11 {
        30
    } else {
        31
    }
}

/// Days of the year `year` that precede the first of `month`.
pub open spec fn days_before_month(year: int, month: int) -> int
    decreases month,
{
    if month <= 1 {
        0
    } else {
        days_before_month(year, month - 1) + days_in_month_spec(year, month - 1)
    }
}

/// Days from 0001-01-01 to the first of January of `year`.
pub open spec fn days_before_year(year: int) -> int {
    let p = year - 1;
    365 * p + p / 4 - p / 100 + p / 400
}

/// Proleptic Gregorian day count; 0001-01-01 is day 0.
pub open spec fn day_count(year: int, month: int, day: int) -> int {
    days_before_year(year) + days_before_month(year, month) + day - 1
}

/// Weekday of a day count, as days since Sunday (0001-01-01 was a Monday).
pub open spec fn weekday_of_count(n: int) -> int {
    (n + 1) % 7
}

pub open spec fn valid_ymd(year: int, month: int, day: int) -> bool {
    &&& MIN_YEAR <= year <= MAX_YEAR
    &&& 1 <= month <= 12
    &&& 1 <= day <= days_in_month_spec(year, month)
}

/// Day count of the first and the last date that `Date` admits.
pub open spec fn min_day_count() -> int {
    day_count(MIN_YEAR as int, 1, 1)
}

pub open spec fn max_day_count() -> int {
    day_count(MAX_YEAR as int, 12, 31)
}

/// Years for which the holiday rules are computed: the Easter formulas
/// take remainders of a non-negative year.
pub open spec fn supported_year(year: int) -> bool {
    0 <= year <= MAX_YEAR
}

pub open spec fn days_in_year(year: int) -> int {
    if is_leap_year(year) { 366 } else { 365 }
}

/// The first of January of the next year follows the last day of this one.
pub proof fn lemma_year_length(year: int)
    ensures
        days_before_year(year + 1) == days_before_year(year) + days_in_year(year),
        days_before_month(year, 13) == days_in_year(year),
{
    reveal_with_fuel(days_before_month, 13);
}

/// Days of the year before the first of each month.
pub proof fn lemma_month_starts(year: int)
    ensures
        ({
            let l = if is_leap_year(year) { 1int } else { 0int };
            &&& days_before_month(year, 1) == 0
            &&& days_before_month(year, 2) == 31
            &&& days_before_month(year, 3) == 59 + l
            &&& days_before_month(year, 4) == 90 + l
            &&& days_before_month(year, 5) == 120 + l
            &&& days_before_month(year, 6) == 151 + l
            &&& days_before_month(year, 7) == 181 + l
            &&& days_before_month(year, 8) == 212 + l
            &&& days_before_month(year, 9) == 243 + l
            &&& days_before_month(year, 10) == 273 + l
            &&& days_before_month(year, 11) == 304 + l
            &&& days_before_month(year, 12) == 334 + l
            &&& days_before_month(year, 13) == 365 + l
        }),
{
    reveal_with_fuel(days_before_month, 13);
}

/// Day counts grow with the year.
pub proof fn lemma_years_ordered(a: int, b: int)
    requires
        a <= b,
    ensures
        days_before_year(a) <= days_before_year(b),
{
}

/// A valid date lies within its year, and within the range of `Date`.
pub proof fn lemma_date_bounds(d: Date)
    requires
        d.wf(),
    ensures
        days_before_year(d.year as int) <= d.count(),
        d.count() < days_before_year(d.year as int + 1),
        min_day_count() <= d.count() <= max_day_count(),
{
    reveal_with_fuel(days_before_month, 13);
    lemma_year_length(d.year as int);
    lemma_year_length(MAX_YEAR as int);
    lemma_years_ordered(MIN_YEAR as int, d.year as int);
    lemma_years_ordered(d.year as int + 1, MAX_YEAR as int + 1);
}

/// Day counts order valid dates as their (year, month, day) triples do.
pub proof fn lemma_date_order(a: Date, b: Date)
    requires
        a.wf(),
        b.wf(),
    ensures
        a.year < b.year || (a.year == b.year && (a.month < b.month || (a.month == b.month
            && a.day < b.day))) ==> a.count() < b.count(),
{
    lemma_date_bounds(a);
    lemma_date_bounds(b);
    if a.year < b.year {
        lemma_years_ordered(a.year as int + 1, b.year as int);
    } else if a.year == b.year {
        lemma_month_starts(a.year as int);
    }
}

/// A valid date is determined by its day count.
pub proof fn lemma_count_determines_date(a: Date, b: Date)
    requires
        a.wf(),
        b.wf(),
        a.count() == b.count(),
    ensures
        a == b,
{
    lemma_date_order(a, b);
    lemma_date_order(b, a);
}

/// A calendar date at midnight of the reference zone.
#[derive(Clone, Copy, Debug, PartialEq, Eq, Structural)]
pub struct Date {
    pub year: i32,
    pub month: u32,
    pub day: u32,
}

impl Date {
    pub open spec fn wf(self) -> bool {
        valid_ymd(self.year as int, self.month as int, self.day as int)
    }

    /// Position of the date on the proleptic Gregorian day line.
    pub open spec fn count(self) -> int {
        day_count(self.year as int, self.month as int, self.day as int)
    }

    /// Weekday of the date, as days since Sunday.
    pub open spec fn weekday_index(self) -> int {
        weekday_of_count(self.count())
    }

    /// Whether the date exists and lies within the range of `Date`.
    pub fn is_valid(&self) -> (r: bool)
        ensures
            r == self.wf(),
    {
        if self.year < MIN_YEAR || self.year > MAX_YEAR || self.month < 1 || self.month > 12 {
            return false;
        }
        let last = DateSystem::get_days_of_month(self.year, self.month);
        1 <= self.day && self.day <= last as u32
    }

    /// Whether this date comes after `other`.
    pub fn is_after(&self, other: &Date) -> (r: bool)
        requires
            self.wf(),
            other.wf(),
        ensures
            r == (self.count() > other.count()),
    {
        proof {
            lemma_date_order(*other, *self);
            lemma_date_order(*self, *other);
        }
        self.year > other.year || (self.year == other.year && (self.month > other.month || (
        self.month == other.month && self.day > other.day)))
    }

    /// Builds a date from its parts.
    pub fn new(year: i32, month: u32, day: u32) -> (r: Date)
        requires
            valid_ymd(year as int, month as int, day as int),
        ensures
            r == (Date { year, month, day }),
            r.wf(),
    {
        Date { year, month, day }
    }

    /// Weekday of the date.
    pub fn weekday(&self) -> (r: Weekday)
        requires
            self.wf(),
        ensures
            r.from_sunday() == self.weekday_index(),
    {
        let n = days_from_sunday(*self);
        Weekday::from_index(n)
    }

    /// The date `days` days after this one (before it, where `days` is negative).
    pub fn plus_days(&self, days: i64) -> (r: Date)
        requires
            self.wf(),
            min_day_count() <= self.count() + days <= max_day_count(),
        ensures
            r.wf(),
            r.count() == self.count() + days,
    {
        add_days(*self, days)
    }

    /// Text of the date at midnight UTC, as `YYYY-MM-DDT00:00:00Z`.
    pub fn midnight_text(&self) -> (r: String)
        requires
            self.wf(),
        ensures
            r@ == iso_midnight(self.year as int, self.month as int, self.day as int),
            0 <= self.year <= 9999 ==> r@ == iso_midnight_four_digit(
                self.year as int,
                self.month as int,
                self.day as int,
            ),
    {
        iso_midnight_text(*self)
    }
}

/// Day of the week.
#[derive(Clone, Copy, Debug, PartialEq, Eq, Structural)]
pub enum Weekday {
    Mon,
    Tue,
    Wed,
    Thu,
    Fri,
    Sat,
    Sun,
}

impl Weekday {
    /// Days since Sunday: Sunday is 0, Monday 1, ..., Saturday 6.
    pub open spec fn from_sunday(self) -> int {
        match self {
            Weekday::Sun => 0,
            Weekday::Mon => 1,
            Weekday::Tue => 2,
            Weekday::Wed => 3,
            Weekday::Thu => 4,
            Weekday::Fri => 5,
            Weekday::Sat => 6,
        }
    }

    pub fn num_days_from_sunday(&self) -> (r: u32)
        ensures
            r == self.from_sunday(),
    {
        match self {
            Weekday::Sun => 0,
            Weekday::Mon => 1,
            Weekday::Tue => 2,
            Weekday::Wed => 3,
            Weekday::Thu => 4,
            Weekday::Fri => 5,
            Weekday::Sat => 6,
        }
    }

    /// The weekday `n` days after Sunday.
    pub fn from_index(n: u32) -> (r: Weekday)
        requires
            n < 7,
        ensures
            r.from_sunday() == n,
    {
        if n == 0 {
            Weekday::Sun
        } else if n == 1 {
            Weekday::Mon
        } else if n == 2 {
            Weekday::Tue
        } else if n == 3 {
            Weekday::Wed
        } else if n == 4 {
            Weekday::Thu
        } else if n == 5 {
            Weekday::Fri
        } else {
            Weekday::Sat
        }
    }
}

/// Whether `year` is a Gregorian leap year.
pub fn leap_year(year: i32) -> (r: bool)
    requires
        MIN_YEAR <= year <= MAX_YEAR,
    ensures
        r == is_leap_year(year as int),
{
    // 400 * 1000 is a multiple of 4, 100 and 400, so the shift keeps every
    // remainder below and makes the operand non-negative.
    let shifted: u32 = (year as i64 + 400 * 1000) as u32;
    assert(shifted as int % 4 == year as int % 4);
    assert(shifted as int % 100 == year as int % 100);
    assert(shifted as int % 400 == year as int % 400);
    (shifted % 4 == 0 && shifted % 100 != 0) || shifted % 400 == 0
}

/// What `chrono`'s `Debug` writes for a UTC date and time.
pub uninterp spec fn iso_midnight(year: int, month: int, day: int) -> Seq<char>;

/// The decimal digit `d`.
pub open spec fn digit_char(d: int) -> char {
    if d == 0 {
        '0'
    } else if d == 1 {
        '1'
    } else if d == 2 {
        '2'
    } else if d == 3 {
        '3'
    } else if d == 4 {
        '4'
    } else if d == 5 {
        '5'
    } else if d == 6 {
        '6'
    } else if d == 7 {
        '7'
    } else if d == 8 {
        '8'
    } else {
        '9'
    }
}

/// The last `width` decimal digits of `n`, zero-padded.
pub open spec fn padded_digits(n: int, width: nat) -> Seq<char>
    decreases width,
{
    if width == 0 {
        seq![]
    } else {
        padded_digits(n / 10, (width - 1) as nat).push(digit_char(n % 10))
    }
}

/// `YYYY-MM-DDT00:00:00Z`: the text of midnight UTC of a date whose year
/// has at most four digits.
pub open spec fn iso_midnight_four_digit(year: int, month: int, day: int) -> Seq<char> {
    padded_digits(year, 4) + seq!['-'] + padded_digits(month, 2) + seq!['-'] + padded_digits(day, 2)
        + seq!['T', '0', '0', ':', '0', '0', ':', '0', '0', 'Z']
}

/// Relies on `chrono::Weekday::num_days_from_sunday` of
/// `chrono::NaiveDate::weekday`: the proleptic Gregorian weekday.
#[verifier::external_body]
fn days_from_sunday(d: Date) -> (r: u32)
    requires
        d.wf(),
    ensures
        r == d.weekday_index(),
{
    chrono::NaiveDate::from_ymd_opt(d.year, d.month, d.day).unwrap().weekday().num_days_from_sunday()
}

/// Relies on `chrono::NaiveDate + chrono::Duration`: moves a date by whole
/// days along the proleptic Gregorian calendar; panics only outside
/// `NaiveDate`'s range, which `requires` excludes.
#[verifier::external_body]
fn add_days(d: Date, days: i64) -> (r: Date)
    requires
        d.wf(),
        min_day_count() <= d.count() + days <= max_day_count(),
    ensures
        r.wf(),
        r.count() == d.count() + days,
{
    let moved = chrono::NaiveDate::from_ymd_opt(d.year, d.month, d.day).unwrap() + chrono::Duration::days(days);
    Date { year: moved.year(), month: moved.month(), day: moved.day() }
}

/// Relies on the `Debug` text of `chrono::DateTime<chrono::Utc>`, for the
/// date at midnight: `NaiveDate`'s text (four digits of year for years 0 to
/// 9999, each written as two pairs of digits; a sign and at least four digits
/// otherwise), `T`, `NaiveTime`'s `00:00:00`, then `Z` for `Utc`.
#[verifier::external_body]
fn iso_midnight_text(d: Date) -> (r: String)
    requires
        d.wf(),
    ensures
        r@ == iso_midnight(d.year as int, d.month as int, d.day as int),
        0 <= d.year <= 9999 ==> r@ == iso_midnight_four_digit(d.year as int, d.month as int, d.day as int),
{
    let naive = chrono::NaiveDate::from_ymd_opt(d.year, d.month, d.day).unwrap();
    format!("{:?}", naive.and_hms_opt(0, 0, 0).unwrap().and_utc())
}

} // verus!
