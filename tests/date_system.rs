use horus::catholic_provider::CatholicProvider;
use horus::orthodox_provider::OrthodoxProvider;
use horus::{Date, DateSystem, Occurrence, Weekday};

#[test]
fn first_monday_of_january_2023() {
    let result = DateSystem::find_day(2023, 1, Weekday::Mon, Occurrence::First);
    assert_eq!(result, Some(Date::new(2023, 1, 2)));
    assert_eq!(DateSystem::find_nth_weekday(2023, 1, Weekday::Mon, 1), Some(Date::new(2023, 1, 2)));
}

#[test]
fn last_monday_of_january_2023() {
    let result = DateSystem::find_last_day(2023, 1, Weekday::Mon);
    assert_eq!(result, Some(Date::new(2023, 1, 30)));
}

#[test]
fn last_weekday_falls_back_to_the_fourth() {
    // February 2023 has four Mondays: 6, 13, 20, 27
    assert_eq!(DateSystem::find_day(2023, 2, Weekday::Mon, Occurrence::Fifth), None);
    assert_eq!(DateSystem::find_last_day(2023, 2, Weekday::Mon), Some(Date::new(2023, 2, 27)));
}

#[test]
fn fifth_weekday_in_a_leap_february() {
    assert_eq!(DateSystem::find_day(2024, 2, Weekday::Thu, Occurrence::Fifth), Some(Date::new(2024, 2, 29)));
    assert_eq!(DateSystem::find_day(2023, 2, Weekday::Wed, Occurrence::Fifth), None);
}

#[test]
fn nth_weekday_examples() {
    assert_eq!(DateSystem::find_day(2022, 11, Weekday::Thu, Occurrence::Fourth), Some(Date::new(2022, 11, 24)));
    assert_eq!(DateSystem::find_day(2022, 10, Weekday::Mon, Occurrence::Second), Some(Date::new(2022, 10, 10)));
    assert_eq!(DateSystem::find_day(2022, 1, Weekday::Mon, Occurrence::Third), Some(Date::new(2022, 1, 17)));
    assert_eq!(DateSystem::find_day(2022, 5, Weekday::Sun, Occurrence::First), Some(Date::new(2022, 5, 1)));
}

#[test]
fn occurrence_outside_one_to_five_is_absent() {
    let days = [Weekday::Mon, Weekday::Tue, Weekday::Wed, Weekday::Thu, Weekday::Fri, Weekday::Sat, Weekday::Sun];
    for year in [1900, 2000, 2023, 2024] {
        for month in 1..=12u32 {
            for day in days {
                assert_eq!(DateSystem::find_nth_weekday(year, month, day, 0), None);
                assert_eq!(DateSystem::find_nth_weekday(year, month, day, 6), None);
                assert_eq!(DateSystem::find_nth_weekday(year, month, day, 100), None);
                assert!(DateSystem::find_nth_weekday(year, month, day, 4).is_some());
                assert!(DateSystem::find_last_day(year, month, day).is_some());
            }
        }
    }
}

#[test]
fn shift_sunday_to_monday() {
    let date = Date::new(2023, 1, 29);
    assert_eq!(DateSystem::shift(date, 1, 1, None), Date::new(2023, 1, 30));
}

#[test]
fn shift_saturday_and_monday() {
    // 2022-01-01 was a Saturday, 2022-01-03 a Monday, 2022-01-04 a Tuesday
    assert_eq!(DateSystem::shift(Date::new(2022, 1, 1), -1, 1, None), Date::new(2021, 12, 31));
    assert_eq!(DateSystem::shift(Date::new(2022, 1, 3), 2, 1, Some(7)), Date::new(2022, 1, 10));
    assert_eq!(DateSystem::shift(Date::new(2022, 1, 3), 2, 1, None), Date::new(2022, 1, 3));
    assert_eq!(DateSystem::shift(Date::new(2022, 1, 4), 2, 1, Some(7)), Date::new(2022, 1, 4));
}

#[test]
fn days_of_month() {
    assert_eq!(DateSystem::get_days_of_month(2023, 2), 28);
    assert_eq!(DateSystem::get_days_of_month(2024, 2), 29);
    assert_eq!(DateSystem::get_days_of_month(1900, 2), 28);
    assert_eq!(DateSystem::get_days_of_month(2000, 2), 29);
    assert_eq!(DateSystem::get_days_of_month(2023, 4), 30);
    assert_eq!(DateSystem::get_days_of_month(2023, 12), 31);
}

#[test]
fn weekday_and_day_arithmetic() {
    assert_eq!(Date::new(2023, 1, 29).weekday(), Weekday::Sun);
    assert_eq!(Date::new(2022, 4, 17).weekday(), Weekday::Sun);
    assert_eq!(Date::new(2000, 1, 1).weekday(), Weekday::Sat);
    assert_eq!(Date::new(2022, 12, 31).plus_days(1), Date::new(2023, 1, 1));
    assert_eq!(Date::new(2024, 3, 1).plus_days(-1), Date::new(2024, 2, 29));
    assert_eq!(Date::new(2022, 4, 17).midnight_text(), "2022-04-17T00:00:00Z");
    assert_eq!(Date::new(5, 1, 9).midnight_text(), "0005-01-09T00:00:00Z");
    assert_eq!(Date::new(10000, 12, 31).midnight_text(), "+10000-12-31T00:00:00Z");
    assert!(Date::new(2022, 4, 18).is_after(&Date::new(2022, 4, 17)));
    assert!(!Date::new(2021, 12, 31).is_after(&Date::new(2022, 1, 1)));
}

#[test]
fn easter_2022() {
    assert_eq!(CatholicProvider::get_easter_sunday(2022), Date::new(2022, 4, 17));
    assert_eq!(OrthodoxProvider::get_orthodox_easter(2022), Date::new(2022, 4, 24));
}

#[test]
fn easter_known_years() {
    assert_eq!(CatholicProvider::get_easter_sunday(2005), Date::new(2005, 3, 27));
    assert_eq!(CatholicProvider::get_easter_sunday(2006), Date::new(2006, 4, 16));
    assert_eq!(CatholicProvider::get_easter_sunday(2008), Date::new(2008, 3, 23));
    assert_eq!(CatholicProvider::get_easter_sunday(2024), Date::new(2024, 3, 31));
    assert_eq!(OrthodoxProvider::get_orthodox_easter(2023), Date::new(2023, 4, 16));
}

#[test]
fn easter_within_its_window() {
    for year in 1900..=2100 {
        let w = CatholicProvider::get_easter_sunday(year);
        assert!((w.month == 3 && w.day >= 22) || (w.month == 4 && w.day <= 25), "{}", year);
        assert_eq!(w.weekday(), Weekday::Sun);
        let o = OrthodoxProvider::get_orthodox_easter(year);
        assert!((o.month == 4 && o.day >= 4) || (o.month == 5 && o.day <= 8), "{}", year);
    }
}

#[test]
fn easter_is_repeatable() {
    for year in [1900, 1961, 2022, 2100] {
        assert_eq!(CatholicProvider::get_easter_sunday(year), CatholicProvider::get_easter_sunday(year));
        assert_eq!(OrthodoxProvider::get_orthodox_easter(year), OrthodoxProvider::get_orthodox_easter(year));
    }
}

#[test]
fn advent_is_a_sunday() {
    assert_eq!(CatholicProvider::advent_sunday(2023), Date::new(2023, 12, 3));
    for year in 1990..2030 {
        assert_eq!(CatholicProvider::advent_sunday(year).weekday(), Weekday::Sun);
    }
}
