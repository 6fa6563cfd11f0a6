//! Holiday calendars by country: dispatch to the country's rules.
use vstd::prelude::*;

use crate::calendar::supported_year;
use crate::country_code::CountryCode;
use crate::date_order::{all_dates_valid, sort_by_day, views};
use crate::german_holiday_provider::{german_counties, german_holidays, GermanHolidayProvider};
use crate::greece_holiday_provider::{greece_holidays, GreeceHolidayProvider};
use crate::poland_holiday_provider::{poland_holidays, PolandHolidayProvider};
use crate::public_holiday::{pair_texts, HolidayView, PublicHoliday};
use crate::russia_holiday_provider::{russia_holidays, RussiaHolidayProvider};
use crate::ukraine_holiday_provider::{ukraine_holidays, UkrainHolidayProvider};
use crate::united_kingdom_holiday_provider::{
    united_kingdom_counties, united_kingdom_holidays, UnitedKingdomHolidayProvider,
};
use crate::united_states_holiday_provider::{
    united_states_counties, united_states_holidays, UnitedStatesHolidayProvider,
};

verus! {

/// Countries whose holidays are modelled.
pub open spec fn supported_country(country_code: CountryCode) -> bool {
    match country_code {
        CountryCode::DE | CountryCode::GB | CountryCode::GR | CountryCode::PL | CountryCode::RU
        | CountryCode::UA | CountryCode::US => true,
        _ => false,
    }
}

/// The holidays of a country in `year`, in the order in which its rules list them.
pub open spec fn country_holidays(year: i32, country_code: CountryCode) -> Seq<HolidayView> {
    match country_code {
        CountryCode::DE => german_holidays(year),
        CountryCode::GB => united_kingdom_holidays(year),
        CountryCode::GR => greece_holidays(year),
        CountryCode::PL => poland_holidays(year),
        CountryCode::RU => russia_holidays(year),
        CountryCode::UA => ukraine_holidays(year),
        CountryCode::US => united_states_holidays(year),
        _ => seq![],
    }
}

/// The subdivisions of a country, where they are modelled.
pub open spec fn country_counties(country_code: CountryCode) -> Option<Seq<(Seq<char>, Seq<char>)>> {
    match country_code {
        CountryCode::DE => Some(german_counties()),
        CountryCode::GB => Some(united_kingdom_counties()),
        CountryCode::US => Some(united_states_counties()),
        _ => None,
    }
}

/// Holidays and subdivisions by country.
pub struct HolidayProvider {}

impl HolidayProvider {
    /// The holidays of `country_code` in `year`, in ascending order of date;
    /// holidays of one day keep the order in which the country's rules list
    /// them. Empty for a country whose holidays are not modelled.
    pub fn get_holidays(year: i32, country_code: CountryCode) -> (r: Vec<PublicHoliday>)
        requires
            supported_country(country_code) ==> supported_year(year as int),
        ensures
            views(r@) == sort_by_day(country_holidays(year, country_code)),
            all_dates_valid(r@),
            !supported_country(country_code) ==> r@.len() == 0,
    {
        match country_code {
            CountryCode::DE => GermanHolidayProvider::get_holidays(year),
            CountryCode::GB => UnitedKingdomHolidayProvider::get_holidays(year),
            CountryCode::GR => GreeceHolidayProvider::get_holidays(year),
            CountryCode::PL => PolandHolidayProvider::get_holidays(year),
            CountryCode::RU => RussiaHolidayProvider::get_holidays(year),
            CountryCode::UA => UkrainHolidayProvider::get_holidays(year),
            CountryCode::US => UnitedStatesHolidayProvider::get_holidays(year),
            _ => {
                let r: Vec<PublicHoliday> = Vec::new();
                assert(views(r@) =~= sort_by_day(country_holidays(year, country_code)));
                r
            },
        }
    }

    /// Whether the holidays of `country_code` are modelled.
    pub fn has_rules(country_code: CountryCode) -> (r: bool)
        ensures
            r == supported_country(country_code),
    {
        match country_code {
            CountryCode::DE | CountryCode::GB | CountryCode::GR | CountryCode::PL | CountryCode::RU
            | CountryCode::UA | CountryCode::US => true,
            _ => false,
        }
    }

    /// The subdivisions of `country_code`, as (code, name) pairs; `None` for
    /// a country without modelled subdivisions.
    pub fn get_counties(country_code: CountryCode) -> (r: Option<Vec<(String, String)>>)
        ensures
            r.is_some() == country_counties(country_code).is_some(),
            r matches Some(v) ==> pair_texts(v@) == country_counties(country_code).unwrap(),
    {
        match country_code {
            CountryCode::DE => Some(GermanHolidayProvider::get_counties()),
            CountryCode::GB => Some(UnitedKingdomHolidayProvider::get_counties()),
            CountryCode::US => Some(UnitedStatesHolidayProvider::get_counties()),
            _ => None,
        }
    }
}

} // verus!
