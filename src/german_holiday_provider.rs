//! Holidays of Germany.
use vstd::prelude::*;

use crate::calendar::{lemma_date_bounds, lemma_month_starts, supported_year, Date};
use crate::catholic_provider::{advent_sunday_count, western_easter, CatholicProvider};
use crate::country_code::CountryCode;
use crate::date_order::{all_dates_valid, push_holiday, sort_by_date, sort_by_day, views};
use crate::holiday_type::PublicHolidayType;
use crate::public_holiday::{
    county_list, dated_view, fixed_view, optional_views, pair_texts, texts, HolidayView,
    PublicHoliday,
};

verus! {

/// The German states, by subdivision code.
pub open spec fn german_counties() -> Seq<(Seq<char>, Seq<char>)> {
    seq![
        ("DE-BW"@, "Baden-Württemberg"@),
        ("DE-BY"@, "Bayern"@),
        ("DE-BE"@, "Berlin"@),
        ("DE-BB"@, "Brandenburg"@),
        ("DE-HB"@, "Bremen"@),
        ("DE-HH"@, "Hamburg"@),
        ("DE-HE"@, "Hessen"@),
        ("DE-MV"@, "Mecklenburg-Vorpommern"@),
        ("DE-NI"@, "Niedersachsen"@),
        ("DE-NW"@, "Nordrhein-Westfalen"@),
        ("DE-RP"@, "Rheinland-Pfalz"@),
        ("DE-SL"@, "Saarland"@),
        ("DE-SN"@, "Sachsen"@),
        ("DE-ST"@, "Sachsen-Anhalt"@),
        ("DE-SH"@, "Schleswig-Holstein"@),
        ("DE-TH"@, "Thüringen"@),
    ]
}

/// Reformation Day: nationwide in 2017, else in the states that keep it.
pub open spec fn german_reformation_day(year: i32, country_code: CountryCode) -> HolidayView {
    let counties = if year == 2017 {
        None
    } else if year >= 2018 {
        Some(seq!["DE-BB"@, "DE-MV"@, "DE-SN"@, "DE-ST"@, "DE-TH"@, "DE-HB"@, "DE-HH"@, "DE-NI"@, "DE-SH"@])
    } else {
        Some(seq!["DE-BB"@, "DE-MV"@, "DE-SN"@, "DE-ST"@, "DE-TH"@])
    };
    fixed_view(year, 10, 31, "Reformationstag"@, "Reformation Day"@, country_code, None, counties)
}

/// Repentance and Prayer Day, eleven days before the first Sunday of Advent,
/// in the years and states that observed it.
pub open spec fn german_prayer_day(year: i32, country_code: CountryCode) -> Seq<HolidayView> {
    let day = advent_sunday_count(year) - 11;
    let local = "Buß- und Bettag"@;
    let name = "Repentance and Prayer Day"@;
    if 1934 <= year <= 1938 {
        seq![dated_view(day, local, name, country_code, None, None)]
    } else if 1945 <= year <= 1979 {
        seq![dated_view(day, local, name, country_code, None, Some(seq![
            "DE-BW"@, "DE-BE"@, "DE-HB"@, "DE-HH"@, "DE-HE"@, "DE-NI"@, "DE-NW"@, "DE-RP"@, "DE-SL"@, "DE-SH"@,
        ]))]
    } else if 1981 <= year <= 1988 {
        seq![dated_view(day, local, name, country_code, None, Some(seq![
            "DE-BW"@, "DE-BY"@, "DE-BE"@, "DE-HB"@, "DE-HH"@, "DE-HE"@, "DE-NI"@, "DE-NW"@, "DE-RP"@, "DE-SL"@, "DE-SH"@,
        ]))]
    } else if 1990 <= year <= 1993 {
        seq![dated_view(day, local, name, country_code, None, None)]
    } else if year >= 1995 {
        seq![dated_view(day, local, name, country_code, None, Some(seq!["DE-SN"@]))]
    } else {
        seq![]
    }
}

/// Liberation Day, observed in Berlin in 2020 only.
pub open spec fn german_liberation_day(year: i32) -> Seq<HolidayView> {
    if year == 2020 {
        seq![dated_view((Date { year: 2020, month: 5, day: 8 }).count(), "Tag der Befreiung"@,
            "Liberation Day"@, CountryCode::DE, None, Some(seq!["DE-BE"@]))]
    } else {
        seq![]
    }
}

/// The German holidays of `year`, in the order in which they are listed.
pub open spec fn german_holidays(year: i32) -> Seq<HolidayView> {
    let cc = CountryCode::DE;
    german_yearly(year) + german_prayer_day(year, cc) + german_liberation_day(year) + seq![
        german_reformation_day(year, cc),
    ]
}

/// The German holidays that every year has, but Reformation Day.
pub open spec fn german_yearly(year: i32) -> Seq<HolidayView> {
    let cc = CountryCode::DE;
    let easter = western_easter(year).count();
    seq![
        fixed_view(year, 1, 1, "Neujahr"@, "New Year's Day"@, cc, Some(1967), None),
        fixed_view(year, 1, 6, "Heilige Drei Könige"@, "Epiphany"@, cc, Some(1967),
            Some(seq!["DE-BW"@, "DE-BY"@, "DE-ST"@])),
        fixed_view(year, 3, 8, "Internationaler Frauentag"@, "International Women's Day"@, cc,
            Some(2019), Some(seq!["DE-BE"@])),
        dated_view(easter - 2, "Karfreitag"@, "Good Friday"@, cc, None, None),
        dated_view(easter, "Ostersonntag"@, "Easter Sunday"@, cc, None, Some(seq!["DE-BB"@, "DE-HE"@])),
        dated_view(easter + 1, "Ostermontag"@, "Easter Monday"@, cc, Some(1642), None),
        fixed_view(year, 5, 1, "Tag der Arbeit"@, "Labour Day"@, cc, None, None),
        dated_view(easter + 39, "Christi Himmelfahrt"@, "Ascension Day"@, cc, None, None),
        dated_view(easter + 49, "Pfingstsonntag"@, "Pentecost"@, cc, None, Some(seq!["DE-BB"@, "DE-HE"@])),
        dated_view(easter + 50, "Pfingstmontag"@, "Whit Monday"@, cc, None, None),
        dated_view(easter + 60, "Fronleichnam"@, "Corpus Christi"@, cc, None,
            Some(seq!["DE-BW"@, "DE-BY"@, "DE-HE"@, "DE-NW"@, "DE-RP"@, "DE-SL"@])),
        fixed_view(year, 8, 15, "Mariä Himmelfahrt"@, "Assumption Day"@, cc, None, Some(seq!["DE-SL"@])),
        fixed_view(year, 9, 20, "Weltkindertag"@, "World Children's Day"@, cc, Some(2019),
            Some(seq!["DE-TH"@])),
        fixed_view(year, 10, 3, "Tag der Deutschen Einheit"@, "German Unity Day"@, cc, None, None),
        fixed_view(year, 11, 1, "Allerheiligen"@, "All Saints' Day"@, cc, None,
            Some(seq!["DE-BW"@, "DE-BY"@, "DE-NW"@, "DE-RP"@, "DE-SL"@])),
        fixed_view(year, 12, 25, "Erster Weihnachtstag"@, "Christmas Day"@, cc, None, None),
        fixed_view(year, 12, 26, "Zweiter Weihnachtstag"@, "St. Stephen's Day"@, cc, None, None),
    ]
}

/// Holidays of Germany.
pub struct GermanHolidayProvider {}

impl GermanHolidayProvider {
    const COUNTRYCODE: CountryCode = CountryCode::DE;

    /// The German states, as (subdivision code, name) pairs.
    pub fn get_counties() -> (r: Vec<(String, String)>)
        ensures
            pair_texts(r@) == german_counties(),
    {
        let r = vec![
            ("DE-BW".to_string(), "Baden-Württemberg".to_string()),
            ("DE-BY".to_string(), "Bayern".to_string()),
            ("DE-BE".to_string(), "Berlin".to_string()),
            ("DE-BB".to_string(), "Brandenburg".to_string()),
            ("DE-HB".to_string(), "Bremen".to_string()),
            ("DE-HH".to_string(), "Hamburg".to_string()),
            ("DE-HE".to_string(), "Hessen".to_string()),
            ("DE-MV".to_string(), "Mecklenburg-Vorpommern".to_string()),
            ("DE-NI".to_string(), "Niedersachsen".to_string()),
            ("DE-NW".to_string(), "Nordrhein-Westfalen".to_string()),
            ("DE-RP".to_string(), "Rheinland-Pfalz".to_string()),
            ("DE-SL".to_string(), "Saarland".to_string()),
            ("DE-SN".to_string(), "Sachsen".to_string()),
            ("DE-ST".to_string(), "Sachsen-Anhalt".to_string()),
            ("DE-SH".to_string(), "Schleswig-Holstein".to_string()),
            ("DE-TH".to_string(), "Thüringen".to_string()),
        ];
        assert(pair_texts(r@) =~= german_counties());
        r
    }

    /// The German holidays of `year`, in ascending order of date.
    pub fn get_holidays(year: i32) -> (r: Vec<PublicHoliday>)
        requires
            supported_year(year as int),
        ensures
            views(r@) == sort_by_day(german_holidays(year)),
            all_dates_valid(r@),
    {
        let mut holidays = Self::yearly_holidays(year);
        let cc = Self::COUNTRYCODE;
        let prayer_day = Self::get_prayer_day(year, cc);
        if let Some(prayer_day) = prayer_day {
            holidays.push(prayer_day);
        }
        let liberation_day = Self::get_liberation_day(year);
        if let Some(liberation_day) = liberation_day {
            holidays.push(liberation_day);
        }
        holidays.push(Self::get_reformation_day(year, cc));
        assert(views(holidays@) =~= german_holidays(year));
        sort_by_date(holidays)
    }

    /// The holidays that every year has, but Reformation Day, as listed.
    fn yearly_holidays(year: i32) -> (r: Vec<PublicHoliday>)
        requires
            supported_year(year as int),
        ensures
            views(r@) == german_yearly(year),
            all_dates_valid(r@),
    {
        let cc = Self::COUNTRYCODE;
        let ghost expected = german_yearly(year);
        let epiphany_states = county_list(&["DE-BW", "DE-BY", "DE-ST"]);
        assert(texts(epiphany_states@) =~= expected[1].counties.unwrap());
        let womens_day_states = county_list(&["DE-BE"]);
        assert(texts(womens_day_states@) =~= expected[2].counties.unwrap());
        let easter_sunday_states = county_list(&["DE-BB", "DE-HE"]);
        assert(texts(easter_sunday_states@) =~= expected[4].counties.unwrap());
        let pentecost_states = county_list(&["DE-BB", "DE-HE"]);
        assert(texts(pentecost_states@) =~= expected[8].counties.unwrap());
        let corpus_christi_states = county_list(&["DE-BW", "DE-BY", "DE-HE", "DE-NW", "DE-RP", "DE-SL"]);
        assert(texts(corpus_christi_states@) =~= expected[10].counties.unwrap());
        let assumption_states = county_list(&["DE-SL"]);
        assert(texts(assumption_states@) =~= expected[11].counties.unwrap());
        let childrens_day_states = county_list(&["DE-TH"]);
        assert(texts(childrens_day_states@) =~= expected[12].counties.unwrap());
        let all_saints_states = county_list(&["DE-BW", "DE-BY", "DE-NW", "DE-RP", "DE-SL"]);
        assert(texts(all_saints_states@) =~= expected[14].counties.unwrap());
        let mut holidays: Vec<PublicHoliday> = Vec::new();
        push_holiday(&mut holidays, PublicHoliday::new_fixed(
            year, 1, 1, "Neujahr", "New Year's Day", cc, Some(1967), None, PublicHolidayType::Public,
        ));
        push_holiday(&mut holidays, PublicHoliday::new_fixed(
            year, 1, 6, "Heilige Drei Könige", "Epiphany", cc, Some(1967),
            Some(epiphany_states),
            PublicHolidayType::Public,
        ));
        push_holiday(&mut holidays, PublicHoliday::new_fixed(
            year, 3, 8, "Internationaler Frauentag", "International Women's Day", cc, Some(2019),
            Some(womens_day_states), PublicHolidayType::Public,
        ));
        push_holiday(&mut holidays, CatholicProvider::good_friday("Karfreitag", year, cc));
        let mut easter_sunday = CatholicProvider::easter_sunday("Ostersonntag", year, cc);
        easter_sunday.set_counties(easter_sunday_states);
        push_holiday(&mut holidays, easter_sunday);
        let mut easter_monday = CatholicProvider::easter_monday("Ostermontag", year, cc);
        easter_monday.set_launch_year(1642);
        push_holiday(&mut holidays, easter_monday);
        push_holiday(&mut holidays, PublicHoliday::new_fixed(
            year, 5, 1, "Tag der Arbeit", "Labour Day", cc, None, None, PublicHolidayType::Public,
        ));
        push_holiday(&mut holidays, CatholicProvider::ascension_day("Christi Himmelfahrt", year, cc));
        let mut pentecost = CatholicProvider::pentecost("Pfingstsonntag", year, cc);
        pentecost.set_counties(pentecost_states);
        push_holiday(&mut holidays, pentecost);
        push_holiday(&mut holidays, CatholicProvider::whit_monday("Pfingstmontag", year, cc));
        let mut corpus_christi = CatholicProvider::corpus_christi("Fronleichnam", year, cc);
        corpus_christi.set_counties(corpus_christi_states);
        push_holiday(&mut holidays, corpus_christi);
        push_holiday(&mut holidays, PublicHoliday::new_fixed(
            year, 8, 15, "Mariä Himmelfahrt", "Assumption Day", cc, None,
            Some(assumption_states), PublicHolidayType::Public,
        ));
        push_holiday(&mut holidays, PublicHoliday::new_fixed(
            year, 9, 20, "Weltkindertag", "World Children's Day", cc, Some(2019),
            Some(childrens_day_states), PublicHolidayType::Public,
        ));
        push_holiday(&mut holidays, PublicHoliday::new_fixed(
            year, 10, 3, "Tag der Deutschen Einheit", "German Unity Day", cc, None, None,
            PublicHolidayType::Public,
        ));
        push_holiday(&mut holidays, PublicHoliday::new_fixed(
            year, 11, 1, "Allerheiligen", "All Saints' Day", cc, None,
            Some(all_saints_states),
            PublicHolidayType::Public,
        ));
        push_holiday(&mut holidays, PublicHoliday::new_fixed(
            year, 12, 25, "Erster Weihnachtstag", "Christmas Day", cc, None, None,
            PublicHolidayType::Public,
        ));
        push_holiday(&mut holidays, PublicHoliday::new_fixed(
            year, 12, 26, "Zweiter Weihnachtstag", "St. Stephen's Day", cc, None, None,
            PublicHolidayType::Public,
        ));
        assert(views(holidays@) =~~= german_yearly(year));
        holidays
    }

    /// Reformation Day of `year`.
    fn get_reformation_day(year: i32, country_code: CountryCode) -> (r: PublicHoliday)
        requires
            supported_year(year as int),
        ensures
            r@ == german_reformation_day(year, country_code),
            r.date.wf(),
    {
        let local_name = "Reformationstag";
        let english_name = "Reformation Day";
        if year == 2017 {
            // the 500th anniversary of the Reformation was a nationwide holiday
            return PublicHoliday::new_fixed(
                year, 10, 31, local_name, english_name, country_code, None, None,
                PublicHolidayType::Public,
            );
        }
        let counties = if year >= 2018 {
            county_list(&["DE-BB", "DE-MV", "DE-SN", "DE-ST", "DE-TH", "DE-HB", "DE-HH", "DE-NI", "DE-SH"])
        } else {
            county_list(&["DE-BB", "DE-MV", "DE-SN", "DE-ST", "DE-TH"])
        };
        let r = PublicHoliday::new_fixed(
            year, 10, 31, local_name, english_name, country_code, None, Some(counties),
            PublicHolidayType::Public,
        );
        assert(r@ == german_reformation_day(year, country_code)) by {
            if year >= 2018 {
                assert(r@.counties.unwrap() =~= seq!["DE-BB"@, "DE-MV"@, "DE-SN"@, "DE-ST"@, "DE-TH"@, "DE-HB"@, "DE-HH"@, "DE-NI"@, "DE-SH"@]);
            } else {
                assert(r@.counties.unwrap() =~= seq!["DE-BB"@, "DE-MV"@, "DE-SN"@, "DE-ST"@, "DE-TH"@]);
            }
        }
        r
    }

    /// Repentance and Prayer Day of `year`, where it was observed.
    fn get_prayer_day(year: i32, country_code: CountryCode) -> (r: Option<PublicHoliday>)
        requires
            supported_year(year as int),
        ensures
            optional_views(r) == german_prayer_day(year, country_code),
            r matches Some(h) ==> h.date.wf(),
    {
        let advent = CatholicProvider::advent_sunday(year);
        proof {
            lemma_month_starts(year as int);
            lemma_date_bounds(Date { year, month: 11, day: 16 });
            lemma_date_bounds(Date { year, month: 12, day: 24 });
        }
        let day_of_prayer = advent.plus_days(-11);
        let local_name = "Buß- und Bettag";
        let english_name = "Repentance and Prayer Day";
        let r = if 1934 <= year && year <= 1938 {
            Some(PublicHoliday::new_non_fixed(
                day_of_prayer, local_name, english_name, country_code, None, None,
                PublicHolidayType::Public,
            ))
        } else if 1945 <= year && year <= 1979 {
            Some(PublicHoliday::new_non_fixed(
                day_of_prayer, local_name, english_name, country_code, None,
                Some(county_list(&["DE-BW", "DE-BE", "DE-HB", "DE-HH", "DE-HE", "DE-NI", "DE-NW", "DE-RP", "DE-SL", "DE-SH"])),
                PublicHolidayType::Public,
            ))
        } else if 1981 <= year && year <= 1988 {
            Some(PublicHoliday::new_non_fixed(
                day_of_prayer, local_name, english_name, country_code, None,
                Some(county_list(&["DE-BW", "DE-BY", "DE-BE", "DE-HB", "DE-HH", "DE-HE", "DE-NI", "DE-NW", "DE-RP", "DE-SL", "DE-SH"])),
                PublicHolidayType::Public,
            ))
        } else if 1990 <= year && year <= 1993 {
            Some(PublicHoliday::new_non_fixed(
                day_of_prayer, local_name, english_name, country_code, None, None,
                PublicHolidayType::Public,
            ))
        } else if year >= 1995 {
            Some(PublicHoliday::new_non_fixed(
                day_of_prayer, local_name, english_name, country_code, None,
                Some(county_list(&["DE-SN"])), PublicHolidayType::Public,
            ))
        } else {
            None
        };
        assert(optional_views(r) =~= german_prayer_day(year, country_code)) by {
            if let Some(h) = r {
                if h.counties.is_some() {
                    assert(texts(h.counties.unwrap()@) =~= german_prayer_day(year, country_code)[0].counties.unwrap());
                }
            }
        }
        r
    }

    /// Liberation Day, in 2020 only.
    fn get_liberation_day(year: i32) -> (r: Option<PublicHoliday>)
        ensures
            optional_views(r) == german_liberation_day(year),
            r matches Some(h) ==> h.date.wf(),
    {
        if year == 2020 {
            let h = PublicHoliday::new_non_fixed(
                Date::new(2020, 5, 8), "Tag der Befreiung", "Liberation Day", Self::COUNTRYCODE,
                None, Some(county_list(&["DE-BE"])), PublicHolidayType::Public,
            );
            assert(texts(h.counties.unwrap()@) =~= seq!["DE-BE"@]);
            assert(optional_views(Some(h)) =~= german_liberation_day(year));
            Some(h)
        } else {
            None
        }
    }
}

} // verus!
