//! Facts that relate several functions of the library.
use vstd::prelude::*;

use crate::calendar::{supported_year, Date};
use crate::catholic_provider::{lemma_western_easter_window, western_easter};
use crate::country_code::CountryCode;
use crate::date_order::{lemma_sort_permutes, lemma_sort_sorted, sort_by_day, sorted_by_day};
use crate::holiday_provider::{country_holidays, supported_country};
use crate::orthodox_provider::{lemma_orthodox_easter_window, orthodox_easter};

verus! {

/// Western Easter falls between March 22 and April 25, Orthodox Easter
/// between April 4 and May 8, in every supported year.
pub proof fn lemma_easter_windows(year: i32)
    requires
        supported_year(year as int),
    ensures
        ({
            let w = western_easter(year);
            (w.month == 3 && 22 <= w.day) || (w.month == 4 && w.day <= 25)
        }),
        ({
            let o = orthodox_easter(year);
            (o.month == 4 && 4 <= o.day) || (o.month == 5 && o.day <= 8)
        }),
        western_easter(year).year == year && orthodox_easter(year).year == year,
{
    lemma_western_easter_window(year);
    lemma_orthodox_easter_window(year);
}

/// Easter depends on the year alone: two computations for one year agree.
pub proof fn lemma_easter_repeatable(year: i32, first: Date, second: Date)
    requires
        (first == western_easter(year) && second == western_easter(year)) || (first
            == orthodox_easter(year) && second == orthodox_easter(year)),
    ensures
        first == second,
{
}

/// For every modelled country and supported year, the calendar is in
/// ascending order of date and holds at least one holiday: exactly those
/// that the country's rules list.
pub proof fn lemma_calendar_sorted_nonempty(year: i32, country_code: CountryCode)
    requires
        supported_year(year as int),
        supported_country(country_code),
    ensures
        sorted_by_day(sort_by_day(country_holidays(year, country_code))),
        sort_by_day(country_holidays(year, country_code)).len() > 0,
        sort_by_day(country_holidays(year, country_code)).to_multiset()
            == country_holidays(year, country_code).to_multiset(),
{
    lemma_sort_sorted(country_holidays(year, country_code));
    lemma_sort_permutes(country_holidays(year, country_code));
}

} // verus!
