//! Holidays of the United States.
use vstd::prelude::*;

use crate::calendar::{
    lemma_date_bounds, lemma_month_starts, lemma_year_length, supported_year, Date, Weekday,
};
use crate::catholic_provider::{western_easter, CatholicProvider};
use crate::country_code::CountryCode;
use crate::date_order::{all_dates_valid, push_holiday, sort_by_date, sort_by_day, views};
use crate::date_system::{last_weekday, nth_weekday, shifted_count, DateSystem};
use crate::holiday_type::PublicHolidayType;
use crate::occurrence::Occurrence;
use crate::public_holiday::{
    county_list, dated_view, fixed_view, pair_texts, texts, HolidayView, PublicHoliday,
};

verus! {

/// The states of the United States, by subdivision code.
pub open spec fn united_states_counties() -> Seq<(Seq<char>, Seq<char>)> {
    seq![
        ("US-AL"@, "Alabama"@),
        ("US-AK"@, "Alaska"@),
        ("US-AZ"@, "Arizona"@),
        ("US-AR"@, "Arkansas"@),
        ("US-CA"@, "California"@),
        ("US-CO"@, "Colorado"@),
        ("US-CT"@, "Connecticut"@),
        ("US-DE"@, "Delaware"@),
        ("US-FL"@, "Florida"@),
        ("US-GA"@, "Georgia"@),
        ("US-HI"@, "Hawaii"@),
        ("US-ID"@, "Idaho"@),
        ("US-IL"@, "Illinois"@),
        ("US-IN"@, "Indiana"@),
        ("US-IA"@, "Iowa"@),
        ("US-KS"@, "Kansas"@),
        ("US-KY"@, "Kentucky"@),
        ("US-LA"@, "Louisiana"@),
        ("US-ME"@, "Maine"@),
        ("US-MD"@, "Maryland"@),
        ("US-MA"@, "Massachusetts"@),
        ("US-MI"@, "Michigan"@),
        ("US-MN"@, "Minnesota"@),
        ("US-MS"@, "Mississippi"@),
        ("US-MO"@, "Missouri"@),
        ("US-MT"@, "Montana"@),
        ("US-NE"@, "Nebraska"@),
        ("US-NV"@, "Nevada"@),
        ("US-NH"@, "New Hampshire"@),
        ("US-NJ"@, "New Jersey"@),
        ("US-NM"@, "New Mexico"@),
        ("US-NY"@, "New York"@),
        ("US-NC"@, "North Carolina"@),
        ("US-ND"@, "North Dakota"@),
        ("US-OH"@, "Ohio"@),
        ("US-OK"@, "Oklahoma"@),
        ("US-OR"@, "Oregon"@),
        ("US-PA"@, "Pennsylvania"@),
        ("US-RI"@, "Rhode Island"@),
        ("US-SC"@, "South Carolina"@),
        ("US-SD"@, "South Dakota"@),
        ("US-TN"@, "Tennessee"@),
        ("US-TX"@, "Texas"@),
        ("US-UT"@, "Utah"@),
        ("US-VT"@, "Vermont"@),
        ("US-VA"@, "Virginia"@),
        ("US-WA"@, "Washington"@),
        ("US-WV"@, "West Virginia"@),
        ("US-WI"@, "Wisconsin"@),
        ("US-WY"@, "Wyoming"@),
    ]
}

/// Day count of a federal holiday on `month`/`day`: observed on the Friday
/// before where it falls on a Saturday, on the Monday after where on a Sunday.
pub open spec fn observed(year: i32, month: u32, day: u32) -> int {
    shifted_count(Date { year, month, day }, -1i64, 1i64, None)
}

/// The holidays of the United States from New Year's Day to Good Friday.
pub open spec fn united_states_spring(year: i32) -> Seq<HolidayView> {
    let cc = CountryCode::US;
    let easter = western_easter(year).count();
    seq![
        dated_view(observed(year, 1, 1), "New Year's Day"@, "New Year's Day"@, cc, None, None),
        dated_view(nth_weekday(year, 1, Weekday::Mon, 3).unwrap().count(),
            "Martin Luther King, Jr. Day"@, "Martin Luther King, Jr. Day"@, cc, None, None),
        dated_view(nth_weekday(year, 2, Weekday::Mon, 3).unwrap().count(), "Presidents Day"@,
            "Washington's Birthday"@, cc, None, None),
        dated_view(last_weekday(year, 5, Weekday::Mon).count(), "Memorial Day"@, "Memorial Day"@,
            cc, None, None),
        dated_view(easter - 2, "Good Friday"@, "Good Friday"@, cc, None, Some(seq![
                "US-CT"@, "US-DE"@, "US-HI"@, "US-IN"@, "US-KY"@, "US-LA"@, "US-NC"@, "US-ND"@,
                "US-NJ"@, "US-TN"@,
            ])),
        HolidayView {
            holiday_type: PublicHolidayType::Optional,
            ..dated_view(easter - 2, "Good Friday"@, "Good Friday"@, cc, None, Some(seq!["US-TX"@]))
        },
    ]
}

/// Juneteenth, a federal holiday since 2021.
pub open spec fn united_states_juneteenth(year: i32) -> Seq<HolidayView> {
    if year >= 2021 {
        seq![dated_view(observed(year, 6, 19), "Juneteenth"@, "Juneteenth"@, CountryCode::US,
            Some(2021), None)]
    } else {
        seq![]
    }
}

/// The holidays of the United States from Independence Day to Christmas.
pub open spec fn united_states_autumn(year: i32) -> Seq<HolidayView> {
    let cc = CountryCode::US;
    seq![
        dated_view(observed(year, 7, 4), "Independence Day"@, "Independence Day"@, cc, None, None),
        dated_view(nth_weekday(year, 9, Weekday::Mon, 1).unwrap().count(), "Labor Day"@,
            "Labor Day"@, cc, None, None),
        dated_view(nth_weekday(year, 10, Weekday::Mon, 2).unwrap().count(), "Columbus Day"@,
            "Columbus Day"@, cc, None, Some(seq![
                "US-AL"@, "US-AZ"@, "US-CO"@, "US-CT"@, "US-DC"@, "US-GA"@, "US-ID"@, "US-IL"@,
                "US-IN"@, "US-IA"@, "US-KS"@, "US-KY"@, "US-LA"@, "US-ME"@, "US-MD"@, "US-MA"@,
                "US-MS"@, "US-MO"@, "US-MT"@, "US-NE"@, "US-NH"@, "US-NJ"@, "US-NM"@, "US-NY"@,
                "US-NC"@, "US-OH"@, "US-OK"@, "US-PA"@, "US-RI"@, "US-SC"@, "US-TN"@, "US-UT"@,
                "US-VA"@, "US-WV"@,
            ])),
        dated_view(observed(year, 11, 11), "Veterans Day"@, "Veterans Day"@, cc, None, None),
        dated_view(nth_weekday(year, 11, Weekday::Thu, 4).unwrap().count(), "Thanksgiving Day"@,
            "Thanksgiving Day"@, cc, Some(1863), None),
        dated_view(observed(year, 12, 25), "Christmas Day"@, "Christmas Day"@, cc, None, None),
    ]
}

/// Inauguration Day, in the year after a presidential election: January 20
/// since 1937, March 4 before.
pub open spec fn united_states_inauguration(year: i32) -> Seq<HolidayView> {
    let name = "Inauguration Day"@;
    let counties = Some(seq!["US-DC"@, "US-LA"@, "US-MD"@, "US-VA"@]);
    if (year - 1) % 4 == 0 {
        if year >= 1937 {
            seq![fixed_view(year, 1, 20, name, name, CountryCode::US, None, counties)]
        } else {
            seq![fixed_view(year, 3, 4, name, name, CountryCode::US, None, counties)]
        }
    } else {
        seq![]
    }
}

/// The holidays of the United States of `year`, in the order in which they are listed.
pub open spec fn united_states_holidays(year: i32) -> Seq<HolidayView> {
    united_states_spring(year) + united_states_juneteenth(year) + united_states_autumn(year)
        + united_states_inauguration(year)
}

/// Holidays of the United States.
pub struct UnitedStatesHolidayProvider {}

impl UnitedStatesHolidayProvider {
    const COUNTRYCODE: CountryCode = CountryCode::US;

    /// The states of the United States, as (subdivision code, name) pairs.
    pub fn get_counties() -> (r: Vec<(String, String)>)
        ensures
            pair_texts(r@) == united_states_counties(),
    {
        let r = vec![
            ("US-AL".to_string(), "Alabama".to_string()),
            ("US-AK".to_string(), "Alaska".to_string()),
            ("US-AZ".to_string(), "Arizona".to_string()),
            ("US-AR".to_string(), "Arkansas".to_string()),
            ("US-CA".to_string(), "California".to_string()),
            ("US-CO".to_string(), "Colorado".to_string()),
            ("US-CT".to_string(), "Connecticut".to_string()),
            ("US-DE".to_string(), "Delaware".to_string()),
            ("US-FL".to_string(), "Florida".to_string()),
            ("US-GA".to_string(), "Georgia".to_string()),
            ("US-HI".to_string(), "Hawaii".to_string()),
            ("US-ID".to_string(), "Idaho".to_string()),
            ("US-IL".to_string(), "Illinois".to_string()),
            ("US-IN".to_string(), "Indiana".to_string()),
            ("US-IA".to_string(), "Iowa".to_string()),
            ("US-KS".to_string(), "Kansas".to_string()),
            ("US-KY".to_string(), "Kentucky".to_string()),
            ("US-LA".to_string(), "Louisiana".to_string()),
            ("US-ME".to_string(), "Maine".to_string()),
            ("US-MD".to_string(), "Maryland".to_string()),
            ("US-MA".to_string(), "Massachusetts".to_string()),
            ("US-MI".to_string(), "Michigan".to_string()),
            ("US-MN".to_string(), "Minnesota".to_string()),
            ("US-MS".to_string(), "Mississippi".to_string()),
            ("US-MO".to_string(), "Missouri".to_string()),
            ("US-MT".to_string(), "Montana".to_string()),
            ("US-NE".to_string(), "Nebraska".to_string()),
            ("US-NV".to_string(), "Nevada".to_string()),
            ("US-NH".to_string(), "New Hampshire".to_string()),
            ("US-NJ".to_string(), "New Jersey".to_string()),
            ("US-NM".to_string(), "New Mexico".to_string()),
            ("US-NY".to_string(), "New York".to_string()),
            ("US-NC".to_string(), "North Carolina".to_string()),
            ("US-ND".to_string(), "North Dakota".to_string()),
            ("US-OH".to_string(), "Ohio".to_string()),
            ("US-OK".to_string(), "Oklahoma".to_string()),
            ("US-OR".to_string(), "Oregon".to_string()),
            ("US-PA".to_string(), "Pennsylvania".to_string()),
            ("US-RI".to_string(), "Rhode Island".to_string()),
            ("US-SC".to_string(), "South Carolina".to_string()),
            ("US-SD".to_string(), "South Dakota".to_string()),
            ("US-TN".to_string(), "Tennessee".to_string()),
            ("US-TX".to_string(), "Texas".to_string()),
            ("US-UT".to_string(), "Utah".to_string()),
            ("US-VT".to_string(), "Vermont".to_string()),
            ("US-VA".to_string(), "Virginia".to_string()),
            ("US-WA".to_string(), "Washington".to_string()),
            ("US-WV".to_string(), "West Virginia".to_string()),
            ("US-WI".to_string(), "Wisconsin".to_string()),
            ("US-WY".to_string(), "Wyoming".to_string()),
        ];
        assert(pair_texts(r@) =~= united_states_counties());
        r
    }

    /// The holidays of the United States of `year`, in ascending order of date.
    pub fn get_holidays(year: i32) -> (r: Vec<PublicHoliday>)
        requires
            supported_year(year as int),
        ensures
            views(r@) == sort_by_day(united_states_holidays(year)),
            all_dates_valid(r@),
    {
        let cc = Self::COUNTRYCODE;
        let mut holidays: Vec<PublicHoliday> = Vec::new();
        Self::push_spring(&mut holidays, year);
        proof {
            lemma_month_starts(year as int);
            lemma_date_bounds(Date { year, month: 1, day: 1 });
            lemma_date_bounds(Date { year, month: 12, day: 31 });
        }
        if year >= 2021 {
            let june_teenth = DateSystem::shift(Date::new(year, 6, 19), -1, 1, None);
            push_holiday(&mut holidays, PublicHoliday::new_non_fixed(
                june_teenth, "Juneteenth", "Juneteenth", cc, Some(2021), None,
                PublicHolidayType::Public,
            ));
        }
        Self::push_autumn(&mut holidays, year);
        if year >= 1 && (year - 1) % 4 == 0 {
            let ghost expected = united_states_inauguration(year);
            let capital_region = county_list(&["US-DC", "US-LA", "US-MD", "US-VA"]);
            assert(texts(capital_region@) =~= expected[0].counties.unwrap());
            if year >= 1937 {
                push_holiday(&mut holidays, PublicHoliday::new_fixed(
                    year, 1, 20, "Inauguration Day", "Inauguration Day", cc, None,
                    Some(capital_region), PublicHolidayType::Public,
                ));
            } else {
                push_holiday(&mut holidays, PublicHoliday::new_fixed(
                    year, 3, 4, "Inauguration Day", "Inauguration Day", cc, None,
                    Some(capital_region), PublicHolidayType::Public,
                ));
            }
        }
        assert(views(holidays@) =~= united_states_holidays(year));
        sort_by_date(holidays)
    }

    /// Appends the holidays from New Year's Day to Good Friday.
    fn push_spring(holidays: &mut Vec<PublicHoliday>, year: i32)
        requires
            supported_year(year as int),
            all_dates_valid(old(holidays)@),
        ensures
            views(final(holidays)@) == views(old(holidays)@) + united_states_spring(year),
            all_dates_valid(final(holidays)@),
    {
        let cc = Self::COUNTRYCODE;
        let ghost expected = united_states_spring(year);
        let ghost before = views(holidays@);
        let third_monday_in_january = DateSystem::find_day(year, 1, Weekday::Mon, Occurrence::Third);
        let third_monday_in_february = DateSystem::find_day(year, 2, Weekday::Mon, Occurrence::Third);
        let last_monday_in_may = DateSystem::find_last_day(year, 5, Weekday::Mon);
        proof {
            lemma_month_starts(year as int);
            lemma_year_length(year as int - 1);
            lemma_date_bounds(Date { year: (year - 1) as i32, month: 12, day: 31 });
            lemma_date_bounds(Date { year, month: 12, day: 31 });
        }
        let new_years_day = DateSystem::shift(Date::new(year, 1, 1), -1, 1, None);
        push_holiday(holidays, PublicHoliday::new_non_fixed(
            new_years_day, "New Year's Day", "New Year's Day", cc, None, None,
            PublicHolidayType::Public,
        ));
        if let Some(third_monday_in_january) = third_monday_in_january {
            push_holiday(holidays, PublicHoliday::new_non_fixed(
                third_monday_in_january, "Martin Luther King, Jr. Day", "Martin Luther King, Jr. Day",
                cc, None, None, PublicHolidayType::Public,
            ));
        }
        if let Some(third_monday_in_february) = third_monday_in_february {
            push_holiday(holidays, PublicHoliday::new_non_fixed(
                third_monday_in_february, "Presidents Day", "Washington's Birthday", cc, None, None,
                PublicHolidayType::Public,
            ));
        }
        if let Some(last_monday_in_may) = last_monday_in_may {
            push_holiday(holidays, PublicHoliday::new_non_fixed(
                last_monday_in_may, "Memorial Day", "Memorial Day", cc, None, None,
                PublicHolidayType::Public,
            ));
        }
        let mut good_friday = CatholicProvider::good_friday("Good Friday", year, cc);
        let good_friday_states = county_list(&[
            "US-CT", "US-DE", "US-HI", "US-IN", "US-KY", "US-LA", "US-NC", "US-ND", "US-NJ",
            "US-TN",
        ]);
        assert(texts(good_friday_states@) =~= expected[4].counties.unwrap());
        good_friday.set_counties(good_friday_states);
        push_holiday(holidays, good_friday);
        let mut good_friday_texas = CatholicProvider::good_friday("Good Friday", year, cc);
        let texas = county_list(&["US-TX"]);
        assert(texts(texas@) =~= expected[5].counties.unwrap());
        good_friday_texas.set_counties(texas);
        good_friday_texas.set_holiday_type(PublicHolidayType::Optional);
        push_holiday(holidays, good_friday_texas);
        assert(views(holidays@) =~= before + expected);
    }

    /// Appends the holidays from Independence Day to Christmas.
    fn push_autumn(holidays: &mut Vec<PublicHoliday>, year: i32)
        requires
            supported_year(year as int),
            all_dates_valid(old(holidays)@),
        ensures
            views(final(holidays)@) == views(old(holidays)@) + united_states_autumn(year),
            all_dates_valid(final(holidays)@),
    {
        let cc = Self::COUNTRYCODE;
        let ghost expected = united_states_autumn(year);
        let ghost before = views(holidays@);
        let first_monday_in_september = DateSystem::find_day(year, 9, Weekday::Mon, Occurrence::First);
        let second_monday_in_october = DateSystem::find_day(year, 10, Weekday::Mon, Occurrence::Second);
        let fourth_thursday_in_november = DateSystem::find_day(year, 11, Weekday::Thu, Occurrence::Fourth);
        proof {
            lemma_month_starts(year as int);
            lemma_date_bounds(Date { year, month: 1, day: 1 });
            lemma_date_bounds(Date { year, month: 12, day: 31 });
        }
        let independence_day = DateSystem::shift(Date::new(year, 7, 4), -1, 1, None);
        push_holiday(holidays, PublicHoliday::new_non_fixed(
            independence_day, "Independence Day", "Independence Day", cc, None, None,
            PublicHolidayType::Public,
        ));
        if let Some(first_monday_in_september) = first_monday_in_september {
            push_holiday(holidays, PublicHoliday::new_non_fixed(
                first_monday_in_september, "Labor Day", "Labor Day", cc, None, None,
                PublicHolidayType::Public,
            ));
        }
        if let Some(second_monday_in_october) = second_monday_in_october {
            let columbus_states = county_list(&[
                "US-AL", "US-AZ", "US-CO", "US-CT", "US-DC", "US-GA", "US-ID", "US-IL", "US-IN",
                "US-IA", "US-KS", "US-KY", "US-LA", "US-ME", "US-MD", "US-MA", "US-MS", "US-MO",
                "US-MT", "US-NE", "US-NH", "US-NJ", "US-NM", "US-NY", "US-NC", "US-OH", "US-OK",
                "US-PA", "US-RI", "US-SC", "US-TN", "US-UT", "US-VA", "US-WV",
            ]);
            assert(texts(columbus_states@) =~= expected[2].counties.unwrap());
            push_holiday(holidays, PublicHoliday::new_non_fixed(
                second_monday_in_october, "Columbus Day", "Columbus Day", cc, None,
                Some(columbus_states), PublicHolidayType::Public,
            ));
        }
        let veterans_day = DateSystem::shift(Date::new(year, 11, 11), -1, 1, None);
        push_holiday(holidays, PublicHoliday::new_non_fixed(
            veterans_day, "Veterans Day", "Veterans Day", cc, None, None, PublicHolidayType::Public,
        ));
        if let Some(fourth_thursday_in_november) = fourth_thursday_in_november {
            push_holiday(holidays, PublicHoliday::new_non_fixed(
                fourth_thursday_in_november, "Thanksgiving Day", "Thanksgiving Day", cc, Some(1863),
                None, PublicHolidayType::Public,
            ));
        }
        let christmas_day = DateSystem::shift(Date::new(year, 12, 25), -1, 1, None);
        push_holiday(holidays, PublicHoliday::new_non_fixed(
            christmas_day, "Christmas Day", "Christmas Day", cc, None, None, PublicHolidayType::Public,
        ));
        assert(views(holidays@) =~= before + expected);
    }
}

} // verus!
