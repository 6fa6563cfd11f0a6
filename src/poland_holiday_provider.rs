//! Holidays of Poland.
use vstd::prelude::*;

use crate::calendar::supported_year;
use crate::catholic_provider::{western_easter, CatholicProvider};
use crate::country_code::CountryCode;
use crate::date_order::{all_dates_valid, push_holiday, sort_by_date, sort_by_day, views};
use crate::holiday_type::PublicHolidayType;
use crate::public_holiday::{fixed_view, movable_view, HolidayView, PublicHoliday};

verus! {

/// The Polish holidays of `year`, in the order in which they are listed.
pub open spec fn poland_holidays(year: i32) -> Seq<HolidayView> {
    let cc = CountryCode::PL;
    let easter = western_easter(year).count();
    seq![
        fixed_view(year, 1, 1, "Nowy Rok"@, "New Year's Day"@, cc, None, None),
        fixed_view(year, 1, 6, "Święto Trzech Króli"@, "Epiphany"@, cc, None, None),
        movable_view(easter, "Wielkanoc"@, "Easter Sunday"@, cc),
        movable_view(easter + 1, "Drugi Dzień Wielkanocy"@, "Easter Monday"@, cc),
        fixed_view(year, 5, 1, "Święto Pracy"@, "May Day"@, cc, None, None),
        fixed_view(year, 5, 3, "Święto Narodowe Trzeciego Maja"@, "Constitution Day"@, cc, None, None),
        movable_view(easter + 49, "Zielone Świątki"@, "Pentecost"@, cc),
        movable_view(easter + 60, "Boże Ciało"@, "Corpus Christi"@, cc),
        fixed_view(year, 8, 15, "Wniebowzięcie Najświętszej Maryi Panny"@, "Assumption Day"@, cc, None, None),
        fixed_view(year, 11, 1, "Wszystkich Świętych"@, "All Saints' Day"@, cc, None, None),
        fixed_view(year, 11, 11, "Narodowe Święto Niepodległości"@, "Independence Day"@, cc, None, None),
        fixed_view(year, 12, 25, "Boże Narodzenie"@, "Christmas Day"@, cc, None, None),
        fixed_view(year, 12, 26, "Drugi Dzień Bożego Narodzenia"@, "St. Stephen's Day"@, cc, None, None),
    ] + if year == 2018 {
        seq![fixed_view(year, 11, 12, "Narodowe Święto Niepodległości"@, "Independence Day"@, cc, None, None)]
    } else {
        seq![]
    }
}

/// Holidays of Poland.
pub struct PolandHolidayProvider {}

impl PolandHolidayProvider {
    const COUNTRYCODE: CountryCode = CountryCode::PL;

    /// The Polish holidays of `year`, in ascending order of date.
    pub fn get_holidays(year: i32) -> (r: Vec<PublicHoliday>)
        requires
            supported_year(year as int),
        ensures
            views(r@) == sort_by_day(poland_holidays(year)),
            all_dates_valid(r@),
    {
        let cc = Self::COUNTRYCODE;
        let mut holidays: Vec<PublicHoliday> = Vec::new();
        push_holiday(&mut holidays, PublicHoliday::new_fixed(
            year, 1, 1, "Nowy Rok", "New Year's Day", cc, None, None, PublicHolidayType::Public,
        ));
        push_holiday(&mut holidays, PublicHoliday::new_fixed(
            year, 1, 6, "Święto Trzech Króli", "Epiphany", cc, None, None, PublicHolidayType::Public,
        ));
        push_holiday(&mut holidays, CatholicProvider::easter_sunday("Wielkanoc", year, cc));
        push_holiday(&mut holidays, CatholicProvider::easter_monday("Drugi Dzień Wielkanocy", year, cc));
        push_holiday(&mut holidays, PublicHoliday::new_fixed(
            year, 5, 1, "Święto Pracy", "May Day", cc, None, None, PublicHolidayType::Public,
        ));
        push_holiday(&mut holidays, PublicHoliday::new_fixed(
            year, 5, 3, "Święto Narodowe Trzeciego Maja", "Constitution Day", cc, None, None, PublicHolidayType::Public,
        ));
        push_holiday(&mut holidays, CatholicProvider::pentecost("Zielone Świątki", year, cc));
        push_holiday(&mut holidays, CatholicProvider::corpus_christi("Boże Ciało", year, cc));
        push_holiday(&mut holidays, PublicHoliday::new_fixed(
            year, 8, 15, "Wniebowzięcie Najświętszej Maryi Panny", "Assumption Day", cc, None, None, PublicHolidayType::Public,
        ));
        push_holiday(&mut holidays, PublicHoliday::new_fixed(
            year, 11, 1, "Wszystkich Świętych", "All Saints' Day", cc, None, None, PublicHolidayType::Public,
        ));
        push_holiday(&mut holidays, PublicHoliday::new_fixed(
            year, 11, 11, "Narodowe Święto Niepodległości", "Independence Day", cc, None, None, PublicHolidayType::Public,
        ));
        push_holiday(&mut holidays, PublicHoliday::new_fixed(
            year, 12, 25, "Boże Narodzenie", "Christmas Day", cc, None, None, PublicHolidayType::Public,
        ));
        push_holiday(&mut holidays, PublicHoliday::new_fixed(
            year, 12, 26, "Drugi Dzień Bożego Narodzenia", "St. Stephen's Day", cc, None, None, PublicHolidayType::Public,
        ));
        if year == 2018 {
            // centenary of independence
            push_holiday(&mut holidays, PublicHoliday::new_fixed(
                year, 11, 12, "Narodowe Święto Niepodległości", "Independence Day", cc, None, None,
                PublicHolidayType::Public,
            ));
        }
        assert(views(holidays@) =~= poland_holidays(year));
        sort_by_date(holidays)
    }
}

} // verus!
