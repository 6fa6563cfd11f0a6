//! Holidays of the United Kingdom.
use vstd::prelude::*;

use crate::calendar::{lemma_date_bounds, lemma_month_starts, supported_year, Date, Weekday};
use crate::catholic_provider::{western_easter, CatholicProvider};
use crate::country_code::CountryCode;
use crate::date_order::{all_dates_valid, push_holiday, sort_by_date, sort_by_day, views};
use crate::date_system::{last_weekday, nth_weekday, shifted_count, DateSystem};
use crate::holiday_type::PublicHolidayType;
use crate::occurrence::Occurrence;
use crate::public_holiday::{
    county_list, dated_view, fixed_view, optional_views, pair_texts, texts, HolidayView,
    PublicHoliday,
};

verus! {

/// The nations of the United Kingdom, by subdivision code.
pub open spec fn united_kingdom_counties() -> Seq<(Seq<char>, Seq<char>)> {
    seq![
        ("GB-NIR"@, "Northern Ireland"@),
        ("GB-SCT"@, "Scotland"@),
        ("GB-ENG"@, "England"@),
        ("GB-WLS"@, "Wales"@),
    ]
}

/// New Year's Day: where January 1 falls on a weekend, Northern Ireland keeps
/// it, England and Wales take the first Monday, Scotland the first Tuesday.
pub open spec fn united_kingdom_new_year(year: i32) -> Seq<HolidayView> {
    let cc = CountryCode::GB;
    let name = "New Year's Day"@;
    let jan1 = Date { year, month: 1, day: 1 };
    if jan1.weekday_index() == 6 || jan1.weekday_index() == 0 {
        seq![
            dated_view(jan1.count(), name, name, cc, None, Some(seq!["GB-NIR"@])),
            dated_view(nth_weekday(year, 1, Weekday::Mon, 1).unwrap().count(), name, name, cc, None,
                Some(seq!["GB-ENG"@, "GB-WLS"@])),
            dated_view(nth_weekday(year, 1, Weekday::Tue, 1).unwrap().count(), name, name, cc, None,
                Some(seq!["GB-SCT"@])),
        ]
    } else {
        seq![dated_view(jan1.count(), name, name, cc, None, None)]
    }
}

/// Early May Bank Holiday: the first Monday of May; the second Friday in 2020.
pub open spec fn united_kingdom_early_may(year: i32) -> HolidayView {
    let name = "Early May Bank Holiday"@;
    let date = if year == 2020 {
        nth_weekday(year, 5, Weekday::Fri, 2).unwrap()
    } else {
        nth_weekday(year, 5, Weekday::Mon, 1).unwrap()
    };
    dated_view(date.count(), name, name, CountryCode::GB, Some(1978), None)
}

/// Spring Bank Holiday: the last Monday of May; June 2 in 2022.
pub open spec fn united_kingdom_spring(year: i32) -> HolidayView {
    let name = "Spring Bank Holiday"@;
    if year == 2022 {
        dated_view((Date { year, month: 6, day: 2 }).count(), name, name, CountryCode::GB, None, None)
    } else {
        dated_view(last_weekday(year, 5, Weekday::Mon).count(), name, name, CountryCode::GB,
            Some(1971), None)
    }
}

/// A holiday observed in one year only.
pub open spec fn one_off(year: i32, when: i32, month: u32, day: u32, name: Seq<char>) -> Seq<HolidayView> {
    if year == when {
        seq![fixed_view(year, month, day, name, name, CountryCode::GB, None, None)]
    } else {
        seq![]
    }
}

/// The holidays of the United Kingdom of `year`, in the order in which they are listed.
pub open spec fn united_kingdom_holidays(year: i32) -> Seq<HolidayView> {
    let cc = CountryCode::GB;
    united_kingdom_new_year(year) + united_kingdom_yearly(year)
        + one_off(year, 2022, 6, 3, "Queen’s Platinum Jubilee"@)
        + one_off(year, 2022, 9, 19, "Queen’s State Funeral"@)
        + one_off(year, 2023, 5, 8, "Coronation Bank Holiday"@) + seq![
        dated_view(shifted_count(Date { year, month: 12, day: 25 }, 2, 2, None), "Christmas Day"@,
            "Christmas Day"@, cc, None, None),
        dated_view(shifted_count(Date { year, month: 12, day: 26 }, 2, 2, None), "Boxing Day"@,
            "St. Stephen's Day"@, cc, None, None),
    ]
}

/// The holidays of the United Kingdom that every year has, from the
/// Scottish second of January to the Spring Bank Holiday.
pub open spec fn united_kingdom_yearly(year: i32) -> Seq<HolidayView> {
    let cc = CountryCode::GB;
    let easter = western_easter(year).count();
    let new_year = "New Year's Day"@;
    seq![
        dated_view(shifted_count(Date { year, month: 1, day: 2 }, 2, 1, None), new_year, new_year, cc,
            None, Some(seq!["GB-SCT"@])),
        fixed_view(year, 3, 17, "Saint Patrick's Day"@, "Saint Patrick's Day"@, cc, None,
            Some(seq!["GB-NIR"@])),
        dated_view(easter - 2, "Good Friday"@, "Good Friday"@, cc, None, None),
        dated_view(easter + 1, "Easter Monday"@, "Easter Monday"@, cc, None,
            Some(seq!["GB-ENG"@, "GB-WLS"@, "GB-NIR"@])),
        fixed_view(year, 7, 12, "Battle of the Boyne"@, "Battle of the Boyne"@, cc, None,
            Some(seq!["GB-NIR"@])),
        fixed_view(year, 11, 30, "Saint Andrew's Day"@, "Saint Andrew's Day"@, cc, None,
            Some(seq!["GB-SCT"@])),
    ] + united_kingdom_bank_holidays(year)
}

/// The Summer, Early May and Spring Bank Holidays of `year`.
pub open spec fn united_kingdom_bank_holidays(year: i32) -> Seq<HolidayView> {
    let cc = CountryCode::GB;
    let summer = "Summer Bank Holiday"@;
    seq![
        dated_view(nth_weekday(year, 8, Weekday::Mon, 1).unwrap().count(), summer, summer, cc,
            Some(1971), Some(seq!["GB-SCT"@])),
        dated_view(last_weekday(year, 8, Weekday::Mon).count(), summer, summer, cc, Some(1971),
            Some(seq!["GB-ENG"@, "GB-WLS"@, "GB-NIR"@])),
        united_kingdom_early_may(year),
        united_kingdom_spring(year),
    ]
}

/// Holidays of the United Kingdom.
pub struct UnitedKingdomHolidayProvider {}

impl UnitedKingdomHolidayProvider {
    const COUNTRYCODE: CountryCode = CountryCode::GB;

    /// The nations of the United Kingdom, as (subdivision code, name) pairs.
    pub fn get_counties() -> (r: Vec<(String, String)>)
        ensures
            pair_texts(r@) == united_kingdom_counties(),
    {
        let r = vec![
            ("GB-NIR".to_string(), "Northern Ireland".to_string()),
            ("GB-SCT".to_string(), "Scotland".to_string()),
            ("GB-ENG".to_string(), "England".to_string()),
            ("GB-WLS".to_string(), "Wales".to_string()),
        ];
        assert(pair_texts(r@) =~= united_kingdom_counties());
        r
    }

    /// The holidays of the United Kingdom of `year`, in ascending order of date.
    pub fn get_holidays(year: i32) -> (r: Vec<PublicHoliday>)
        requires
            supported_year(year as int),
        ensures
            views(r@) == sort_by_day(united_kingdom_holidays(year)),
            all_dates_valid(r@),
    {
        let cc = Self::COUNTRYCODE;
        let mut holidays = Self::new_year(year);
        Self::push_yearly(&mut holidays, year);
        proof {
            lemma_month_starts(year as int);
            lemma_date_bounds(Date { year, month: 12, day: 31 });
        }
        if let Some(queens_platinum_jubilee) = Self::queens_platinum_jubilee(year) {
            push_holiday(&mut holidays, queens_platinum_jubilee);
        }
        if let Some(queens_state_funeral) = Self::queens_state_funeral(year) {
            push_holiday(&mut holidays, queens_state_funeral);
        }
        if let Some(coronation_bank_holiday) = Self::coronation_bank_holiday(year) {
            push_holiday(&mut holidays, coronation_bank_holiday);
        }
        let christmas_day = DateSystem::shift(Date::new(year, 12, 25), 2, 2, None);
        push_holiday(&mut holidays, PublicHoliday::new_non_fixed(
            christmas_day, "Christmas Day", "Christmas Day", cc, None, None, PublicHolidayType::Public,
        ));
        let sankt_stephen_day = DateSystem::shift(Date::new(year, 12, 26), 2, 2, None);
        push_holiday(&mut holidays, PublicHoliday::new_non_fixed(
            sankt_stephen_day, "Boxing Day", "St. Stephen's Day", cc, None, None,
            PublicHolidayType::Public,
        ));
        assert(views(holidays@) =~= united_kingdom_holidays(year));
        sort_by_date(holidays)
    }

    /// Appends the holidays that every year has, from the Scottish second of
    /// January to the Spring Bank Holiday.
    fn push_yearly(holidays: &mut Vec<PublicHoliday>, year: i32)
        requires
            supported_year(year as int),
            all_dates_valid(old(holidays)@),
        ensures
            views(final(holidays)@) == views(old(holidays)@) + united_kingdom_yearly(year),
            all_dates_valid(final(holidays)@),
    {
        let cc = Self::COUNTRYCODE;
        let ghost expected = united_kingdom_yearly(year);
        let ghost before = views(holidays@);
        proof {
            lemma_month_starts(year as int);
            lemma_date_bounds(Date { year, month: 1, day: 1 });
            lemma_date_bounds(Date { year, month: 12, day: 31 });
        }
        let scotland = county_list(&["GB-SCT"]);
        assert(texts(scotland@) =~= expected[0].counties.unwrap());
        let new_year_day2 = DateSystem::shift(Date::new(year, 1, 2), 2, 1, None);
        push_holiday(holidays, PublicHoliday::new_non_fixed(
            new_year_day2, "New Year's Day", "New Year's Day", cc, None, Some(scotland),
            PublicHolidayType::Public,
        ));
        let northern_ireland = county_list(&["GB-NIR"]);
        assert(texts(northern_ireland@) =~= expected[1].counties.unwrap());
        push_holiday(holidays, PublicHoliday::new_fixed(
            year, 3, 17, "Saint Patrick's Day", "Saint Patrick's Day", cc, None,
            Some(northern_ireland), PublicHolidayType::Public,
        ));
        push_holiday(holidays, CatholicProvider::good_friday("Good Friday", year, cc));
        let mut easter_monday = CatholicProvider::easter_monday("Easter Monday", year, cc);
        let outside_scotland = county_list(&["GB-ENG", "GB-WLS", "GB-NIR"]);
        assert(texts(outside_scotland@) =~= expected[3].counties.unwrap());
        easter_monday.set_counties(outside_scotland);
        push_holiday(holidays, easter_monday);
        let northern_ireland = county_list(&["GB-NIR"]);
        assert(texts(northern_ireland@) =~= expected[4].counties.unwrap());
        push_holiday(holidays, PublicHoliday::new_fixed(
            year, 7, 12, "Battle of the Boyne", "Battle of the Boyne", cc, None,
            Some(northern_ireland), PublicHolidayType::Public,
        ));
        let scotland = county_list(&["GB-SCT"]);
        assert(texts(scotland@) =~= expected[5].counties.unwrap());
        push_holiday(holidays, PublicHoliday::new_fixed(
            year, 11, 30, "Saint Andrew's Day", "Saint Andrew's Day", cc, None, Some(scotland),
            PublicHolidayType::Public,
        ));
        Self::push_bank_holidays(holidays, year);
        assert(views(holidays@) =~= before + expected);
    }

    /// Appends the Summer, Early May and Spring Bank Holidays of `year`.
    fn push_bank_holidays(holidays: &mut Vec<PublicHoliday>, year: i32)
        requires
            supported_year(year as int),
            all_dates_valid(old(holidays)@),
        ensures
            views(final(holidays)@) == views(old(holidays)@) + united_kingdom_bank_holidays(year),
            all_dates_valid(final(holidays)@),
    {
        let cc = Self::COUNTRYCODE;
        let ghost expected = united_kingdom_bank_holidays(year);
        let ghost before = views(holidays@);
        let first_monday_in_august = DateSystem::find_day(year, 8, Weekday::Mon, Occurrence::First);
        let last_monday_in_august = DateSystem::find_last_day(year, 8, Weekday::Mon);
        if let Some(first_monday_in_august) = first_monday_in_august {
            let scotland = county_list(&["GB-SCT"]);
            assert(texts(scotland@) =~= expected[0].counties.unwrap());
            push_holiday(holidays, PublicHoliday::new_non_fixed(
                first_monday_in_august, "Summer Bank Holiday", "Summer Bank Holiday", cc,
                Some(1971), Some(scotland), PublicHolidayType::Public,
            ));
        }
        if let Some(last_monday_in_august) = last_monday_in_august {
            let outside_scotland = county_list(&["GB-ENG", "GB-WLS", "GB-NIR"]);
            assert(texts(outside_scotland@) =~= expected[1].counties.unwrap());
            push_holiday(holidays, PublicHoliday::new_non_fixed(
                last_monday_in_august, "Summer Bank Holiday", "Summer Bank Holiday", cc,
                Some(1971), Some(outside_scotland), PublicHolidayType::Public,
            ));
        }
        if let Some(early_may_bank_holiday) = Self::early_may_bank_holiday(year) {
            push_holiday(holidays, early_may_bank_holiday);
        }
        if let Some(spring_bank_holiday) = Self::spring_bank_holiday(year) {
            push_holiday(holidays, spring_bank_holiday);
        }
        assert(views(holidays@) =~= before + expected);
    }

    /// New Year's Day, and where it falls on a weekend, the days that replace it.
    fn new_year(year: i32) -> (r: Vec<PublicHoliday>)
        requires
            supported_year(year as int),
        ensures
            views(r@) == united_kingdom_new_year(year),
            all_dates_valid(r@),
    {
        let cc = Self::COUNTRYCODE;
        let ghost expected = united_kingdom_new_year(year);
        let mut holidays: Vec<PublicHoliday> = Vec::new();
        let new_years_day = Date::new(year, 1, 1);
        let weekday = new_years_day.weekday();
        if weekday == Weekday::Sat || weekday == Weekday::Sun {
            let new_year_day_monday = DateSystem::find_day(year, 1, Weekday::Mon, Occurrence::First);
            let new_year_day_tuesday = DateSystem::find_day(year, 1, Weekday::Tue, Occurrence::First);
            let northern_ireland = county_list(&["GB-NIR"]);
            assert(texts(northern_ireland@) =~= expected[0].counties.unwrap());
            push_holiday(&mut holidays, PublicHoliday::new_non_fixed(
                new_years_day, "New Year's Day", "New Year's Day", cc, None, Some(northern_ireland),
                PublicHolidayType::Public,
            ));
            let england_wales = county_list(&["GB-ENG", "GB-WLS"]);
            assert(texts(england_wales@) =~= expected[1].counties.unwrap());
            if let Some(monday) = new_year_day_monday {
                push_holiday(&mut holidays, PublicHoliday::new_non_fixed(
                    monday, "New Year's Day", "New Year's Day", cc, None, Some(england_wales),
                    PublicHolidayType::Public,
                ));
            }
            let scotland = county_list(&["GB-SCT"]);
            assert(texts(scotland@) =~= expected[2].counties.unwrap());
            if let Some(tuesday) = new_year_day_tuesday {
                push_holiday(&mut holidays, PublicHoliday::new_non_fixed(
                    tuesday, "New Year's Day", "New Year's Day", cc, None, Some(scotland),
                    PublicHolidayType::Public,
                ));
            }
        } else {
            push_holiday(&mut holidays, PublicHoliday::new_non_fixed(
                new_years_day, "New Year's Day", "New Year's Day", cc, None, None,
                PublicHolidayType::Public,
            ));
        }
        assert(views(holidays@) =~= expected);
        holidays
    }

    /// Spring Bank Holiday of `year`.
    fn spring_bank_holiday(year: i32) -> (r: Option<PublicHoliday>)
        requires
            supported_year(year as int),
        ensures
            r matches Some(h) && h@ == united_kingdom_spring(year) && h.date.wf(),
    {
        let name = "Spring Bank Holiday";
        if year == 2022 {
            // moved to June 2 for the Platinum Jubilee
            Some(PublicHoliday::new_non_fixed(
                Date::new(year, 6, 2), name, name, Self::COUNTRYCODE, None, None,
                PublicHolidayType::Public,
            ))
        } else {
            let last_monday_in_may = DateSystem::find_last_day(year, 5, Weekday::Mon);
            match last_monday_in_may {
                Some(day) => Some(PublicHoliday::new_non_fixed(
                    day, name, name, Self::COUNTRYCODE, Some(1971), None, PublicHolidayType::Public,
                )),
                None => None,
            }
        }
    }

    /// The Platinum Jubilee of Queen Elizabeth II, in 2022.
    fn queens_platinum_jubilee(year: i32) -> (r: Option<PublicHoliday>)
        requires
            supported_year(year as int),
        ensures
            optional_views(r) == one_off(year, 2022, 6, 3, "Queen’s Platinum Jubilee"@),
            r matches Some(h) ==> h.date.wf(),
    {
        if year == 2022 {
            let name = "Queen’s Platinum Jubilee";
            Some(PublicHoliday::new_fixed(
                year, 6, 3, name, name, Self::COUNTRYCODE, None, None, PublicHolidayType::Public,
            ))
        } else {
            None
        }
    }

    /// The state funeral of Queen Elizabeth II, in 2022.
    fn queens_state_funeral(year: i32) -> (r: Option<PublicHoliday>)
        requires
            supported_year(year as int),
        ensures
            optional_views(r) == one_off(year, 2022, 9, 19, "Queen’s State Funeral"@),
            r matches Some(h) ==> h.date.wf(),
    {
        if year == 2022 {
            let name = "Queen’s State Funeral";
            Some(PublicHoliday::new_fixed(
                year, 9, 19, name, name, Self::COUNTRYCODE, None, None, PublicHolidayType::Public,
            ))
        } else {
            None
        }
    }

    /// The coronation of King Charles III, in 2023.
    fn coronation_bank_holiday(year: i32) -> (r: Option<PublicHoliday>)
        requires
            supported_year(year as int),
        ensures
            optional_views(r) == one_off(year, 2023, 5, 8, "Coronation Bank Holiday"@),
            r matches Some(h) ==> h.date.wf(),
    {
        if year == 2023 {
            let name = "Coronation Bank Holiday";
            Some(PublicHoliday::new_fixed(
                year, 5, 8, name, name, Self::COUNTRYCODE, None, None, PublicHolidayType::Public,
            ))
        } else {
            None
        }
    }

    /// Early May Bank Holiday of `year`.
    fn early_may_bank_holiday(year: i32) -> (r: Option<PublicHoliday>)
        requires
            supported_year(year as int),
        ensures
            r matches Some(h) && h@ == united_kingdom_early_may(year) && h.date.wf(),
    {
        let name = "Early May Bank Holiday";
        let day = if year == 2020 {
            // moved to the second Friday for the 75th anniversary of VE Day
            DateSystem::find_day(year, 5, Weekday::Fri, Occurrence::Second)
        } else {
            DateSystem::find_day(year, 5, Weekday::Mon, Occurrence::First)
        };
        match day {
            Some(day) => Some(PublicHoliday::new_non_fixed(
                day, name, name, Self::COUNTRYCODE, Some(1978), None, PublicHolidayType::Public,
            )),
            None => None,
        }
    }
}

} // verus!
