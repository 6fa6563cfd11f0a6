use horus::{CountryCode, Date, PublicHoliday, PublicHolidayType};

fn some_day() -> Date {
    Date::new(2022, 7, 1)
}

#[test]
fn test_set_counties() {
    let mut holiday = PublicHoliday::new_non_fixed(
        some_day(),
        "test",
        "test name",
        CountryCode::DE,
        Some(2022),
        None,
        PublicHolidayType::Public,
    );
    assert_eq!(holiday.counties.is_none(), true);
    holiday.set_counties(vec!["DE-NW".to_string()]);
    assert_eq!(holiday.counties.is_some(), true);
    assert_eq!(holiday.counties.unwrap()[0], "DE-NW".to_string());
}

#[test]
fn test_set_holiday_type() {
    let mut holiday = PublicHoliday::new_non_fixed(
        some_day(),
        "test",
        "test name",
        CountryCode::DE,
        Some(2022),
        None,
        PublicHolidayType::Public,
    );
    assert_eq!(holiday.holiday_type, PublicHolidayType::Public);
    holiday.set_holiday_type(PublicHolidayType::Bank);
    assert_eq!(holiday.holiday_type, PublicHolidayType::Bank);
}

#[test]
fn test_set_launch_year() {
    let mut holiday = PublicHoliday::new_non_fixed(
        some_day(),
        "test",
        "test name",
        CountryCode::DE,
        None,
        None,
        PublicHolidayType::Public,
    );
    assert_eq!(holiday.launch_year.is_none(), true);
    holiday.set_launch_year(1991);
    assert_eq!(holiday.launch_year.is_some(), true);
    assert_eq!(holiday.launch_year.unwrap(), 1991);
}

#[test]
fn fixed_holiday_keeps_its_parts() {
    let holiday = PublicHoliday::new_fixed(
        2022,
        12,
        25,
        "Erster Weihnachtstag",
        "Christmas Day",
        CountryCode::DE,
        None,
        None,
        PublicHolidayType::Public,
    );
    assert!(holiday.fixed);
    assert!(holiday.global());
    assert_eq!(holiday.date, Date::new(2022, 12, 25));
    assert_eq!(holiday.to_text(), "2022-12-25T00:00:00Z Christmas Day");
}

#[test]
fn scoped_holiday_is_not_global() {
    let holiday = PublicHoliday::new_non_fixed(
        some_day(),
        "x",
        "y",
        CountryCode::GB,
        None,
        Some(vec!["GB-SCT".to_string()]),
        PublicHolidayType::Bank,
    );
    assert!(!holiday.fixed);
    assert!(!holiday.global());
}

#[test]
fn labelled_joins_with_a_space() {
    assert_eq!(PublicHoliday::labelled("2022-04-17T00:00:00Z".to_string(), "Easter Sunday"), "2022-04-17T00:00:00Z Easter Sunday");
    assert_eq!(PublicHoliday::labelled(String::new(), "x"), " x");
}
