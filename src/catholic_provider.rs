//! Western (Gregorian) Easter and the feasts that follow from it.
use vstd::prelude::*;

use crate::calendar::{lemma_date_bounds, supported_year, Date, MAX_YEAR, MIN_YEAR};
use crate::country_code::CountryCode;
use crate::public_holiday::{movable_view, PublicHoliday};

verus! {

/// Day of Easter Sunday counted from the first of March (Oudin's method);
/// past 31 it runs on into April.
pub open spec fn western_easter_day(year: int) -> int {
    let g = year % 19;
    let c = year / 100;
    let h = (c - c / 4 - (8 * c + 13) / 25 + 19 * g + 15) % 30;
    let i = h - (h / 28) * (1 - (h / 28) * (29int / (h + 1)) * ((21 - g) / 11));
    i - ((year + year / 4 + i + 2 - c + c / 4) % 7) + 28
}

/// Western Easter Sunday of `year`.
pub open spec fn western_easter(year: i32) -> Date {
    let day = western_easter_day(year as int);
    if day > 31 {
        Date { year, month: 4, day: (day - 31) as u32 }
    } else {
        Date { year, month: 3, day: day as u32 }
    }
}

/// Western Easter falls between March 22 and April 25.
pub proof fn lemma_western_easter_window(year: i32)
    requires
        supported_year(year as int),
    ensures
        22 <= western_easter_day(year as int) <= 56,
        western_easter(year).wf(),
{
    let y = year as int;
    let g = y % 19;
    let c = y / 100;
    let h = (c - c / 4 - (8 * c + 13) / 25 + 19 * g + 15) % 30;
    let p = (h / 28) * (29int / (h + 1)) * ((21 - g) / 11);
    lemma_correction_bounds(h, g);
    let i = h - (h / 28) * (1 - p);
    if h >= 28 {
        assert(i == h - (1 - p)) by (nonlinear_arith)
            requires
                i == h - (h / 28) * (1 - p),
                h / 28 == 1,
        ;
    } else {
        assert(i == h) by (nonlinear_arith)
            requires
                i == h - (h / 28) * (1 - p),
                h / 28 == 0,
        ;
    }
    assert(0 <= i <= 28);
}

/// The product in Oudin's second correction is 0 or 1.
proof fn lemma_correction_bounds(h: int, g: int)
    requires
        0 <= h < 30,
        0 <= g < 19,
    ensures
        0 <= (h / 28) * (29int / (h + 1)) <= 1,
        0 <= (h / 28) * (29int / (h + 1)) * ((21 - g) / 11) <= 1,
        h == 29 ==> (h / 28) * (29int / (h + 1)) * ((21 - g) / 11) == 0,
        h >= 28 ==> h / 28 == 1,
        h < 28 ==> h / 28 == 0,
{
    if h == 28 {
        assert(29int / (h + 1) == 1);
        assert((21 - g) / 11 <= 1);
    } else if h == 29 {
        assert(29int / (h + 1) == 0);
    } else {
        assert(h / 28 == 0);
    }
}

/// Sunday on which Advent begins: the fourth Sunday before Christmas.
pub open spec fn advent_sunday_count(year: i32) -> int {
    let christmas_eve = Date { year, month: 12, day: 24 };
    christmas_eve.count() - (21 + christmas_eve.weekday_index())
}

/// Easter Sunday under the Western rule, and its movable feasts.
pub struct CatholicProvider {}

impl CatholicProvider {
    /// Western Easter Sunday of `year`.
    pub fn get_easter_sunday(year: i32) -> (r: Date)
        requires
            supported_year(year as int),
        ensures
            r == western_easter(year),
            r.wf(),
    {
        proof {
            lemma_western_easter_window(year);
        }
        let y = year as i64;
        let g = y % 19;
        let c = y / 100;
        let h = (c - c / 4 - (8 * c + 13) / 25 + 19 * g + 15) % 30;
        proof {
            lemma_correction_bounds(h as int, g as int);
        }
        let i = h - (h / 28) * (1 - (h / 28) * (29i64 / (h + 1)) * ((21 - g) / 11));
        let day = i - ((y + (y / 4) + i + 2 - c + (c / 4)) % 7) + 28;
        if day > 31 {
            Date::new(year, 4, (day - 31) as u32)
        } else {
            Date::new(year, 3, day as u32)
        }
    }

    /// First Sunday of Advent of `year`.
    pub fn advent_sunday(year: i32) -> (r: Date)
        requires
            MIN_YEAR <= year <= MAX_YEAR,
        ensures
            r.wf(),
            r.count() == advent_sunday_count(year),
            r.weekday_index() == 0,
    {
        let christmas_date = Date::new(year, 12, 24);
        let days_to_advent: i64 = 21 + christmas_date.weekday().num_days_from_sunday() as i64;
        proof {
            lemma_date_bounds(Date { year, month: 11, day: 27 });
            lemma_date_bounds(christmas_date);
        }
        christmas_date.plus_days(-days_to_advent)
    }

    /// Maundy Thursday: three days before Easter Sunday.
    pub fn maundy_thursday(local_name: &str, year: i32, country_code: CountryCode) -> (r: PublicHoliday)
        requires
            supported_year(year as int),
        ensures
            r@ == movable_view(western_easter(year).count() + -3, local_name@, "Maundy Thursday"@, country_code),
            r.date.wf(),
    {
        proof {
            lemma_western_easter_window(year);
        }
        PublicHoliday::relative_to(Self::get_easter_sunday(year), -3, local_name, "Maundy Thursday", country_code)
    }

    /// Good Friday: two days before Easter Sunday.
    pub fn good_friday(local_name: &str, year: i32, country_code: CountryCode) -> (r: PublicHoliday)
        requires
            supported_year(year as int),
        ensures
            r@ == movable_view(western_easter(year).count() + -2, local_name@, "Good Friday"@, country_code),
            r.date.wf(),
    {
        proof {
            lemma_western_easter_window(year);
        }
        PublicHoliday::relative_to(Self::get_easter_sunday(year), -2, local_name, "Good Friday", country_code)
    }

    /// Easter Sunday itself.
    pub fn easter_sunday(local_name: &str, year: i32, country_code: CountryCode) -> (r: PublicHoliday)
        requires
            supported_year(year as int),
        ensures
            r@ == movable_view(western_easter(year).count() + 0, local_name@, "Easter Sunday"@, country_code),
            r.date.wf(),
    {
        proof {
            lemma_western_easter_window(year);
        }
        PublicHoliday::relative_to(Self::get_easter_sunday(year), 0, local_name, "Easter Sunday", country_code)
    }

    /// Easter Monday: the day after Easter Sunday.
    pub fn easter_monday(local_name: &str, year: i32, country_code: CountryCode) -> (r: PublicHoliday)
        requires
            supported_year(year as int),
        ensures
            r@ == movable_view(western_easter(year).count() + 1, local_name@, "Easter Monday"@, country_code),
            r.date.wf(),
    {
        proof {
            lemma_western_easter_window(year);
        }
        PublicHoliday::relative_to(Self::get_easter_sunday(year), 1, local_name, "Easter Monday", country_code)
    }

    /// Ascension Day: 39 days after Easter Sunday.
    pub fn ascension_day(local_name: &str, year: i32, country_code: CountryCode) -> (r: PublicHoliday)
        requires
            supported_year(year as int),
        ensures
            r@ == movable_view(western_easter(year).count() + 39, local_name@, "Ascension Day"@, country_code),
            r.date.wf(),
    {
        proof {
            lemma_western_easter_window(year);
        }
        PublicHoliday::relative_to(Self::get_easter_sunday(year), 39, local_name, "Ascension Day", country_code)
    }

    /// Pentecost: 49 days after Easter Sunday.
    pub fn pentecost(local_name: &str, year: i32, country_code: CountryCode) -> (r: PublicHoliday)
        requires
            supported_year(year as int),
        ensures
            r@ == movable_view(western_easter(year).count() + 49, local_name@, "Pentecost"@, country_code),
            r.date.wf(),
    {
        proof {
            lemma_western_easter_window(year);
        }
        PublicHoliday::relative_to(Self::get_easter_sunday(year), 49, local_name, "Pentecost", country_code)
    }

    /// Whit Monday: 50 days after Easter Sunday.
    pub fn whit_monday(local_name: &str, year: i32, country_code: CountryCode) -> (r: PublicHoliday)
        requires
            supported_year(year as int),
        ensures
            r@ == movable_view(western_easter(year).count() + 50, local_name@, "Whit Monday"@, country_code),
            r.date.wf(),
    {
        proof {
            lemma_western_easter_window(year);
        }
        PublicHoliday::relative_to(Self::get_easter_sunday(year), 50, local_name, "Whit Monday", country_code)
    }

    /// Corpus Christi: 60 days after Easter Sunday.
    pub fn corpus_christi(local_name: &str, year: i32, country_code: CountryCode) -> (r: PublicHoliday)
        requires
            supported_year(year as int),
        ensures
            r@ == movable_view(western_easter(year).count() + 60, local_name@, "Corpus Christi"@, country_code),
            r.date.wf(),
    {
        proof {
            lemma_western_easter_window(year);
        }
        PublicHoliday::relative_to(Self::get_easter_sunday(year), 60, local_name, "Corpus Christi", country_code)
    }
}

} // verus!
