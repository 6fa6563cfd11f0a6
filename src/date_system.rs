//! Locating weekdays within a month and shifting dates off weekends.
use vstd::prelude::*;

use crate::calendar::{
    days_in_month_spec, leap_year, max_day_count, min_day_count, Date, Weekday, MAX_YEAR, MIN_YEAR,
};
use crate::occurrence::Occurrence;

verus! {

/// Day of the month of the `occurrence`-th `weekday` of a month, counted as
/// if the month were long enough to hold it.
pub open spec fn nth_weekday_day(year: i32, month: u32, weekday: Weekday, occurrence: int) -> int {
    let first = Date { year, month, day: 1 }.weekday_index();
    (weekday.from_sunday() - first) % 7 + 1 + 7 * (occurrence - 1)
}

/// The `occurrence`-th `weekday` of the month, if the month holds one.
pub open spec fn nth_weekday(year: i32, month: u32, weekday: Weekday, occurrence: int) -> Option<Date> {
    let day = nth_weekday_day(year, month, weekday, occurrence);
    if 1 <= occurrence <= 5 && day <= days_in_month_spec(year as int, month as int) {
        Some(Date { year, month, day: day as u32 })
    } else {
        None
    }
}

/// The last `weekday` of the month: the fifth one where there is one, else the fourth.
pub open spec fn last_weekday(year: i32, month: u32, weekday: Weekday) -> Date {
    match nth_weekday(year, month, weekday, 5) {
        Some(d) => d,
        None => nth_weekday(year, month, weekday, 4).unwrap(),
    }
}

/// Days that the observed-day rule adds to a date of the given weekday.
pub open spec fn shift_offset(weekday_index: int, saturday: i64, sunday: i64, monday: Option<i64>) -> int {
    if weekday_index == 6 {
        saturday as int
    } else if weekday_index == 0 {
        sunday as int
    } else if weekday_index == 1 && monday.is_some() {
        monday.unwrap() as int
    } else {
        0
    }
}

/// Day count of `value` after the observed-day rule.
pub open spec fn shifted_count(value: Date, saturday: i64, sunday: i64, monday: Option<i64>) -> int {
    value.count() + shift_offset(value.weekday_index(), saturday, sunday, monday)
}

pub open spec fn supported_month(year: i32, month: u32) -> bool {
    MIN_YEAR <= year <= MAX_YEAR && 1 <= month <= 12
}

/// Weekday arithmetic within one month: the `d`-th day of a month is
/// `d - 1` days after its first.
proof fn lemma_weekday_in_month(year: i32, month: u32, day: u32)
    ensures
        (Date { year, month, day }).count() == (Date { year, month, day: 1 }).count() + day - 1,
{
}

/// Helpers for dates and weekdays.
pub struct DateSystem {}

impl DateSystem {
    /// The `occurrence`-th `weekday` of `month` in `year`; `None` where the
    /// month holds fewer, or where `occurrence` is not within 1 to 5.
    pub fn find_nth_weekday(year: i32, month: u32, weekday: Weekday, occurrence: u32) -> (r: Option<Date>)
        requires
            supported_month(year, month),
        ensures
            r == nth_weekday(year, month, weekday, occurrence as int),
            occurrence == 0 || occurrence > 5 ==> r.is_none(),
            1 <= occurrence <= 4 ==> r.is_some(),
            r matches Some(d) ==> {
                &&& d.wf()
                &&& d.year == year && d.month == month
                &&& d.weekday_index() == weekday.from_sunday()
                &&& 7 * (occurrence - 1) < d.day <= 7 * occurrence
            },
    {
        if occurrence == 0 || occurrence > 5 {
            return None;
        }
        let first_day_of_month = Date::new(year, month, 1);
        let days_needed: i32 = weekday.num_days_from_sunday() as i32
            - first_day_of_month.weekday().num_days_from_sunday() as i32;
        let offset: i32 = if days_needed < 0 {
            days_needed + 7
        } else {
            days_needed
        };
        let resulted_day: i32 = offset + 1 + 7 * (occurrence as i32 - 1);
        let ghost first = first_day_of_month.weekday_index();
        assert(offset == (weekday.from_sunday() - first) % 7);
        if resulted_day > Self::get_days_of_month(year, month) {
            return None;
        }
        let d = Date::new(year, month, resulted_day as u32);
        proof {
            lemma_weekday_in_month(year, month, resulted_day as u32);
            let c = first_day_of_month.count();
            assert(d.count() == c + offset + 7 * (occurrence - 1));
            assert((c + 1 + offset + 7 * (occurrence - 1)) % 7 == weekday.from_sunday()) by {
                vstd::arithmetic::div_mod::lemma_mod_add_multiples_vanish(
                    c + 1 + offset,
                    7,
                );
                assert((c + 1 + offset + 7 * (occurrence - 1)) % 7 == (c + 1 + offset) % 7) by {
                    vstd::arithmetic::div_mod::lemma_mod_multiples_vanish(
                        occurrence - 1,
                        c + 1 + offset,
                        7,
                    );
                }
            }
        }
        Some(d)
    }

    /// The `occurence`-th weekday `day` of `month` in `year`, if the month holds one.
    pub fn find_day(year: i32, month: u32, day: Weekday, occurence: Occurrence) -> (r: Option<Date>)
        requires
            supported_month(year, month),
        ensures
            r == nth_weekday(year, month, day, occurence.spec_ordinal()),
            occurence.spec_ordinal() <= 4 ==> r.is_some(),
    {
        Self::find_nth_weekday(year, month, day, occurence.ordinal())
    }

    /// The last weekday `day` of `month` in `year`; every month holds one.
    pub fn find_last_day(year: i32, month: u32, day: Weekday) -> (r: Option<Date>)
        requires
            supported_month(year, month),
        ensures
            r == Some(last_weekday(year, month, day)),
            r matches Some(d) ==> {
                &&& d.wf()
                &&& d.year == year && d.month == month
                &&& d.weekday_index() == day.from_sunday()
                &&& d.day + 7 > days_in_month_spec(year as int, month as int)
            },
    {
        let resulted_day = Self::find_day(year, month, day, Occurrence::Fifth);
        if resulted_day.is_some() {
            return resulted_day;
        }
        Self::find_day(year, month, day, Occurrence::Fourth)
    }

    /// Moves a Saturday by `days_saturday` days, a Sunday by `days_sunday`,
    /// a Monday by `days_monday` where it is given; other dates stay.
    pub fn shift(value: Date, days_saturday: i64, days_sunday: i64, days_monday: Option<i64>) -> (r: Date)
        requires
            value.wf(),
            min_day_count() <= shifted_count(value, days_saturday, days_sunday, days_monday)
                <= max_day_count(),
        ensures
            r.wf(),
            r.count() == shifted_count(value, days_saturday, days_sunday, days_monday),
    {
        match value.weekday() {
            Weekday::Sat => value.plus_days(days_saturday),
            Weekday::Sun => value.plus_days(days_sunday),
            Weekday::Mon => {
                if let Some(days_monday) = days_monday {
                    value.plus_days(days_monday)
                } else {
                    value
                }
            },
            _ => value,
        }
    }

    /// Number of days in `month` of `year`, leap years included.
    pub fn get_days_of_month(year: i32, month: u32) -> (r: i32)
        requires
            supported_month(year, month),
        ensures
            r == days_in_month_spec(year as int, month as int),
            28 <= r <= 31,
    {
        if month == 2 {
            if leap_year(year) {
                29
            } else {
                28
            }
        } else if month == 4 || month == 6 || month == 9 || month == 11 {
            30
        } else {
            31
        }
    }
}

} // verus!
