use horus::catholic_provider::CatholicProvider;
use horus::german_holiday_provider::GermanHolidayProvider;
use horus::greece_holiday_provider::GreeceHolidayProvider;
use horus::orthodox_provider::OrthodoxProvider;
use horus::poland_holiday_provider::PolandHolidayProvider;
use horus::russia_holiday_provider::RussiaHolidayProvider;
use horus::ukraine_holiday_provider::UkrainHolidayProvider;
use horus::united_kingdom_holiday_provider::UnitedKingdomHolidayProvider;
use horus::united_states_holiday_provider::UnitedStatesHolidayProvider;
use horus::CountryCode;

#[test]
fn test_get_easter_sunday() {
    let result = CatholicProvider::get_easter_sunday(2022);
    assert_eq!(result.day, 17);
    assert_eq!(result.month, 4);
}

#[test]
fn test_advent_sunday() {
    let result = CatholicProvider::advent_sunday(2022);
    assert_eq!(result.day, 27);
    assert_eq!(result.month, 11);
}

#[test]
fn catholicprovider_test_maundy_thursday() {
    let result = CatholicProvider::maundy_thursday("test", 2022, CountryCode::DE);
    assert_eq!(result.to_text(), "2022-04-14T00:00:00Z Maundy Thursday");
}

#[test]
fn catholicprovider_test_good_friday() {
    let result = CatholicProvider::good_friday("test", 2022, CountryCode::DE);
    assert_eq!(result.to_text(), "2022-04-15T00:00:00Z Good Friday");
}

#[test]
fn catholicprovider_test_easter_sunday() {
    let result = CatholicProvider::easter_sunday("test", 2022, CountryCode::DE);
    assert_eq!(result.to_text(), "2022-04-17T00:00:00Z Easter Sunday");
}

#[test]
fn catholicprovider_test_easter_monday() {
    let result = CatholicProvider::easter_monday("test", 2022, CountryCode::DE);
    assert_eq!(result.to_text(), "2022-04-18T00:00:00Z Easter Monday");
}

#[test]
fn catholicprovider_test_ascension_day() {
    let result = CatholicProvider::ascension_day("test", 2022, CountryCode::DE);
    assert_eq!(result.to_text(), "2022-05-26T00:00:00Z Ascension Day");
}

#[test]
fn catholicprovider_test_pentecost() {
    let result = CatholicProvider::pentecost("test", 2022, CountryCode::DE);
    assert_eq!(result.to_text(), "2022-06-05T00:00:00Z Pentecost");
}

#[test]
fn catholicprovider_test_whit_monday() {
    let result = CatholicProvider::whit_monday("test", 2022, CountryCode::DE);
    assert_eq!(result.to_text(), "2022-06-06T00:00:00Z Whit Monday");
}

#[test]
fn catholicprovider_test_corpus_christi() {
    let result = CatholicProvider::corpus_christi("test", 2022, CountryCode::DE);
    assert_eq!(result.to_text(), "2022-06-16T00:00:00Z Corpus Christi");
}

#[test]
fn orthodoxprovider_test_get_orthodox_easter() {
    let result = OrthodoxProvider::get_orthodox_easter(2022);
    assert_eq!(result.day, 24);
    assert_eq!(result.month, 4);
}

#[test]
fn orthodoxprovider_test_maundy_thursday() {
    let result = OrthodoxProvider::maundy_thursday("test", 2022, CountryCode::GR);
    assert_eq!(result.to_text(), "2022-04-21T00:00:00Z Maundy Thursday");
}

#[test]
fn orthodoxprovider_test_good_friday() {
    let result = OrthodoxProvider::good_friday("test", 2022, CountryCode::GR);
    assert_eq!(result.to_text(), "2022-04-22T00:00:00Z Good Friday");
}

#[test]
fn orthodoxprovider_test_easter_sunday() {
    let result = OrthodoxProvider::easter_sunday("test", 2022, CountryCode::GR);
    assert_eq!(result.to_text(), "2022-04-24T00:00:00Z Easter Sunday");
}

#[test]
fn orthodoxprovider_test_easter_monday() {
    let result = OrthodoxProvider::easter_monday("test", 2022, CountryCode::GR);
    assert_eq!(result.to_text(), "2022-04-25T00:00:00Z Easter Monday");
}

#[test]
fn orthodoxprovider_test_ascension_day() {
    let result = OrthodoxProvider::ascension_day("test", 2022, CountryCode::GR);
    assert_eq!(result.to_text(), "2022-06-02T00:00:00Z Ascension Day");
}

#[test]
fn orthodoxprovider_test_pentecost() {
    let result = OrthodoxProvider::pentecost("test", 2022, CountryCode::GR);
    assert_eq!(result.to_text(), "2022-06-12T00:00:00Z Pentecost");
}

#[test]
fn orthodoxprovider_test_whit_monday() {
    let result = OrthodoxProvider::whit_monday("test", 2022, CountryCode::GR);
    assert_eq!(result.to_text(), "2022-06-13T00:00:00Z Whit Monday");
}

#[test]
fn orthodoxprovider_test_corpus_christi() {
    let result = OrthodoxProvider::corpus_christi("test", 2022, CountryCode::GR);
    assert_eq!(result.to_text(), "2022-06-23T00:00:00Z Corpus Christi");
}

#[test]
fn germanholidayprovider_test_get_holidays() {
    let result = GermanHolidayProvider::get_holidays(2022);
    assert_eq!(result.len(), 19);
    assert_eq!(result.is_empty(), false);
    assert_eq!(result[5].local_name, "Ostermontag".to_string());
}

#[test]
fn germanholidayprovider_test_get_counties() {
    let result = GermanHolidayProvider::get_counties();
    assert_eq!(result.len(), 16);
}

#[test]
fn greeceholidayprovider_test_get_holidays() {
    let result = GreeceHolidayProvider::get_holidays(2022);
    assert_eq!(result.len(), 15);
    assert_eq!(result.is_empty(), false);
    assert_eq!(result[5].local_name, "Μεγάλη Παρασκευή");
}

#[test]
fn polandholidayprovider_test_get_holidays() {
    let result = PolandHolidayProvider::get_holidays(2022);
    assert_eq!(result.len(), 13);
    assert_eq!(result.is_empty(), false);
    assert_eq!(result[5].local_name, "Święto Narodowe Trzeciego Maja");
}

#[test]
fn russiaholidayprovider_test_get_holidays() {
    let result = RussiaHolidayProvider::get_holidays(2022);
    assert_eq!(result.len(), 13);
    assert_eq!(result.is_empty(), false);
    assert_eq!(result[5].local_name, "Новогодние каникулы");
}

#[test]
fn ukrainholidayprovider_test_get_holidays() {
    let result = UkrainHolidayProvider::get_holidays(2022);
    assert_eq!(result.len(), 11);
    assert_eq!(result.is_empty(), false);
    assert_eq!(result[5].local_name, "День перемоги над нацизмом у Другій світовій війні");
}

#[test]
fn unitedkingdomholidayprovider_test_get_holidays() {
    let result = UnitedKingdomHolidayProvider::get_holidays(2022);
    assert_eq!(result.len(), 17);
    assert_eq!(result.is_empty(), false);
    assert_eq!(result[5].local_name, "Good Friday");
}

#[test]
fn unitedstatesholidayprovider_test_get_holidays() {
    let result = UnitedStatesHolidayProvider::get_holidays(2022);
    assert_eq!(result.len(), 13);
    assert_eq!(result.is_empty(), false);
    assert_eq!(result[5].local_name, "Memorial Day");
}
