use horus::{CountryCode, Date, HolidayProvider, PublicHolidayType};

const MODELLED: [CountryCode; 7] = [
    CountryCode::DE,
    CountryCode::GB,
    CountryCode::GR,
    CountryCode::PL,
    CountryCode::RU,
    CountryCode::UA,
    CountryCode::US,
];

fn key(d: &Date) -> (i32, u32, u32) {
    (d.year, d.month, d.day)
}

#[test]
fn germany_2022() {
    let holidays = HolidayProvider::get_holidays(2022, CountryCode::DE);
    assert_eq!(holidays.len(), 19);
    assert_eq!(holidays[5].local_name, "Ostermontag");
    assert_eq!(holidays[5].launch_year, Some(1642));
    assert_eq!(holidays[4].local_name, "Ostersonntag");
    assert_eq!(holidays[4].counties, Some(vec!["DE-BB".to_string(), "DE-HE".to_string()]));
}

#[test]
fn greece_2022() {
    let holidays = HolidayProvider::get_holidays(2022, CountryCode::GR);
    assert_eq!(holidays.len(), 15);
    assert_eq!(holidays[5].local_name, "Μεγάλη Παρασκευή");
    assert_eq!(holidays[2].date, Date::new(2022, 3, 7));
}

#[test]
fn calendars_sorted_and_nonempty() {
    for year in [1936, 1960, 1985, 1992, 2017, 2018, 2020, 2021, 2022, 2023, 2024, 2025] {
        for country in MODELLED {
            let holidays = HolidayProvider::get_holidays(year, country);
            assert!(!holidays.is_empty());
            for pair in holidays.windows(2) {
                assert!(key(&pair[0].date) <= key(&pair[1].date));
            }
            for h in &holidays {
                assert_eq!(h.country_code, country);
            }
        }
    }
}

#[test]
fn same_day_holidays_keep_their_order() {
    let holidays = HolidayProvider::get_holidays(2022, CountryCode::GR);
    assert_eq!(holidays[3].name, "Annunciation");
    assert_eq!(holidays[4].name, "Independence Day");
    let us = HolidayProvider::get_holidays(2022, CountryCode::US);
    let fridays: Vec<_> = us.iter().filter(|h| h.name == "Good Friday").collect();
    assert_eq!(fridays.len(), 2);
    assert_eq!(fridays[0].holiday_type, PublicHolidayType::Public);
    assert_eq!(fridays[1].holiday_type, PublicHolidayType::Optional);
    assert_eq!(fridays[1].counties, Some(vec!["US-TX".to_string()]));
}

#[test]
fn unmodelled_country_is_empty() {
    assert!(HolidayProvider::get_holidays(2022, CountryCode::FR).is_empty());
    assert!(HolidayProvider::get_holidays(-5000, CountryCode::IT).is_empty());
    assert!(HolidayProvider::get_holidays(i32::MAX, CountryCode::NL).is_empty());
    assert!(HolidayProvider::has_rules(CountryCode::DE));
    assert!(!HolidayProvider::has_rules(CountryCode::FR));
    assert!(HolidayProvider::get_counties(CountryCode::FR).is_none());
    assert!(HolidayProvider::get_counties(CountryCode::GR).is_none());
}

#[test]
fn counties_by_country() {
    assert_eq!(HolidayProvider::get_counties(CountryCode::DE).unwrap().len(), 16);
    assert_eq!(HolidayProvider::get_counties(CountryCode::GB).unwrap().len(), 4);
    let us = HolidayProvider::get_counties(CountryCode::US).unwrap();
    assert_eq!(us.len(), 50);
    assert_eq!(us[0], ("US-AL".to_string(), "Alabama".to_string()));
}

#[test]
fn united_kingdom_weekend_new_year() {
    // January 1 2022 was a Saturday
    let holidays = HolidayProvider::get_holidays(2022, CountryCode::GB);
    let new_year: Vec<_> = holidays.iter().filter(|h| h.name == "New Year's Day").collect();
    assert_eq!(new_year.len(), 4);
    assert_eq!(new_year[0].date, Date::new(2022, 1, 1));
    assert_eq!(new_year[1].date, Date::new(2022, 1, 3));
    assert_eq!(new_year[2].date, Date::new(2022, 1, 3));
    assert_eq!(new_year[3].date, Date::new(2022, 1, 4));
    // Christmas 2022 fell on a Sunday; Boxing Day, a Monday, stays
    let christmas = holidays.iter().find(|h| h.name == "Christmas Day").unwrap();
    assert_eq!(christmas.date, Date::new(2022, 12, 27));
    let boxing = holidays.iter().find(|h| h.local_name == "Boxing Day").unwrap();
    assert_eq!(boxing.date, Date::new(2022, 12, 26));
}

#[test]
fn united_states_observed_days() {
    // July 4 2021 was a Sunday; January 1 2022 a Saturday
    let holidays = HolidayProvider::get_holidays(2021, CountryCode::US);
    let independence = holidays.iter().find(|h| h.name == "Independence Day").unwrap();
    assert_eq!(independence.date, Date::new(2021, 7, 5));
    assert!(holidays.iter().any(|h| h.name == "Inauguration Day" && h.date == Date::new(2021, 1, 20)));
    let next = HolidayProvider::get_holidays(2022, CountryCode::US);
    assert_eq!(next[0].date, Date::new(2021, 12, 31));
    assert!(!next.iter().any(|h| h.name == "Inauguration Day"));
}

#[test]
fn german_one_off_years() {
    let in_2017 = HolidayProvider::get_holidays(2017, CountryCode::DE);
    let reformation = in_2017.iter().find(|h| h.local_name == "Reformationstag").unwrap();
    assert!(reformation.global());
    let in_2020 = HolidayProvider::get_holidays(2020, CountryCode::DE);
    assert_eq!(in_2020.len(), 20);
    let prayer = in_2020.iter().find(|h| h.local_name == "Buß- und Bettag").unwrap();
    assert_eq!(prayer.date, Date::new(2020, 11, 18));
    assert_eq!(HolidayProvider::get_holidays(1960, CountryCode::DE).len(), 19);
    assert_eq!(HolidayProvider::get_holidays(1940, CountryCode::DE).len(), 18);
    for year in [1979, 1988, 1993] {
        assert_eq!(HolidayProvider::get_holidays(year, CountryCode::DE).len(), 19, "{}", year);
    }
    for year in [1980, 1989, 1994] {
        let holidays = HolidayProvider::get_holidays(year, CountryCode::DE);
        assert_eq!(holidays.len(), 18, "{}", year);
        assert!(!holidays.iter().any(|h| h.local_name == "Buß- und Bettag"));
    }
}

#[test]
fn poland_centenary() {
    assert_eq!(HolidayProvider::get_holidays(2018, CountryCode::PL).len(), 14);
    assert_eq!(HolidayProvider::get_holidays(2019, CountryCode::PL).len(), 13);
}

#[test]
fn russia_before_the_common_era() {
    let holidays = horus::russia_holiday_provider::RussiaHolidayProvider::get_holidays(-100);
    assert_eq!(holidays.len(), 13);
    assert_eq!(holidays[0].date, Date::new(-100, 1, 1));
}
