//! Orthodox Easter and the feasts that follow from it.
use vstd::prelude::*;

use crate::calendar::{supported_year, Date};
use crate::country_code::CountryCode;
use crate::public_holiday::{movable_view, PublicHoliday};

verus! {

/// `d + e + 3` of the Orthodox congruence: Easter is on that day of April,
/// running on into May past 30.
pub open spec fn orthodox_easter_key(year: int) -> int {
    let a = year % 19;
    let b = year % 7;
    let c = year % 4;
    let d = (19 * a + 16) % 30;
    let e = (2 * c + 4 * b + 6 * d) % 7;
    d + e + 3
}

/// Orthodox Easter Sunday of `year`.
pub open spec fn orthodox_easter(year: i32) -> Date {
    let key = orthodox_easter_key(year as int);
    if key > 30 {
        Date { year, month: 5, day: (key - 30) as u32 }
    } else {
        Date { year, month: 4, day: key as u32 }
    }
}

/// Orthodox Easter falls between April 4 and May 8.
pub proof fn lemma_orthodox_easter_window(year: i32)
    requires
        supported_year(year as int),
    ensures
        4 <= orthodox_easter_key(year as int) <= 38,
        orthodox_easter(year).wf(),
{
    let a = year as int % 19;
    assert((19 * a + 16) % 30 != 0);
}

/// Easter Sunday under the Orthodox rule, and its movable feasts.
pub struct OrthodoxProvider {}

impl OrthodoxProvider {
    /// Orthodox Easter Sunday of `year`.
    pub fn get_orthodox_easter(year: i32) -> (r: Date)
        requires
            supported_year(year as int),
        ensures
            r == orthodox_easter(year),
            r.wf(),
    {
        proof {
            lemma_orthodox_easter_window(year);
        }
        let a: i32 = year % 19;
        let b: i32 = year % 7;
        let c: i32 = year % 4;

        let d: i32 = (19 * a + 16) % 30;
        let e: i32 = (2 * c + 4 * b + 6 * d) % 7;

        let key: i32 = d + e + 3;
        let month: u32 = if key > 30 { 5 } else { 4 };
        let day: i32 = if key > 30 { key - 30 } else { key };
        Date::new(year, month, day as u32)
    }

    /// Maundy Thursday: three days before Easter Sunday.
    pub fn maundy_thursday(local_name: &str, year: i32, country_code: CountryCode) -> (r: PublicHoliday)
        requires
            supported_year(year as int),
        ensures
            r@ == movable_view(orthodox_easter(year).count() + -3, local_name@, "Maundy Thursday"@, country_code),
            r.date.wf(),
    {
        proof {
            lemma_orthodox_easter_window(year);
        }
        PublicHoliday::relative_to(Self::get_orthodox_easter(year), -3, local_name, "Maundy Thursday", country_code)
    }

    /// Good Friday: two days before Easter Sunday.
    pub fn good_friday(local_name: &str, year: i32, country_code: CountryCode) -> (r: PublicHoliday)
        requires
            supported_year(year as int),
        ensures
            r@ == movable_view(orthodox_easter(year).count() + -2, local_name@, "Good Friday"@, country_code),
            r.date.wf(),
    {
        proof {
            lemma_orthodox_easter_window(year);
        }
        PublicHoliday::relative_to(Self::get_orthodox_easter(year), -2, local_name, "Good Friday", country_code)
    }

    /// Easter Sunday itself.
    pub fn easter_sunday(local_name: &str, year: i32, country_code: CountryCode) -> (r: PublicHoliday)
        requires
            supported_year(year as int),
        ensures
            r@ == movable_view(orthodox_easter(year).count() + 0, local_name@, "Easter Sunday"@, country_code),
            r.date.wf(),
    {
        proof {
            lemma_orthodox_easter_window(year);
        }
        PublicHoliday::relative_to(Self::get_orthodox_easter(year), 0, local_name, "Easter Sunday", country_code)
    }

    /// Easter Monday: the day after Easter Sunday.
    pub fn easter_monday(local_name: &str, year: i32, country_code: CountryCode) -> (r: PublicHoliday)
        requires
            supported_year(year as int),
        ensures
            r@ == movable_view(orthodox_easter(year).count() + 1, local_name@, "Easter Monday"@, country_code),
            r.date.wf(),
    {
        proof {
            lemma_orthodox_easter_window(year);
        }
        PublicHoliday::relative_to(Self::get_orthodox_easter(year), 1, local_name, "Easter Monday", country_code)
    }

    /// Ascension Day: 39 days after Easter Sunday.
    pub fn ascension_day(local_name: &str, year: i32, country_code: CountryCode) -> (r: PublicHoliday)
        requires
            supported_year(year as int),
        ensures
            r@ == movable_view(orthodox_easter(year).count() + 39, local_name@, "Ascension Day"@, country_code),
            r.date.wf(),
    {
        proof {
            lemma_orthodox_easter_window(year);
        }
        PublicHoliday::relative_to(Self::get_orthodox_easter(year), 39, local_name, "Ascension Day", country_code)
    }

    /// Pentecost: 49 days after Easter Sunday.
    pub fn pentecost(local_name: &str, year: i32, country_code: CountryCode) -> (r: PublicHoliday)
        requires
            supported_year(year as int),
        ensures
            r@ == movable_view(orthodox_easter(year).count() + 49, local_name@, "Pentecost"@, country_code),
            r.date.wf(),
    {
        proof {
            lemma_orthodox_easter_window(year);
        }
        PublicHoliday::relative_to(Self::get_orthodox_easter(year), 49, local_name, "Pentecost", country_code)
    }

    /// Whit Monday: 50 days after Easter Sunday.
    pub fn whit_monday(local_name: &str, year: i32, country_code: CountryCode) -> (r: PublicHoliday)
        requires
            supported_year(year as int),
        ensures
            r@ == movable_view(orthodox_easter(year).count() + 50, local_name@, "Whit Monday"@, country_code),
            r.date.wf(),
    {
        proof {
            lemma_orthodox_easter_window(year);
        }
        PublicHoliday::relative_to(Self::get_orthodox_easter(year), 50, local_name, "Whit Monday", country_code)
    }

    /// Corpus Christi: 60 days after Easter Sunday.
    pub fn corpus_christi(local_name: &str, year: i32, country_code: CountryCode) -> (r: PublicHoliday)
        requires
            supported_year(year as int),
        ensures
            r@ == movable_view(orthodox_easter(year).count() + 60, local_name@, "Corpus Christi"@, country_code),
            r.date.wf(),
    {
        proof {
            lemma_orthodox_easter_window(year);
        }
        PublicHoliday::relative_to(Self::get_orthodox_easter(year), 60, local_name, "Corpus Christi", country_code)
    }
}

} // verus!
