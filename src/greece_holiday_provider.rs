//! Holidays of Greece.
use vstd::prelude::*;

use crate::calendar::supported_year;
use crate::country_code::CountryCode;
use crate::date_order::{all_dates_valid, push_holiday, sort_by_date, sort_by_day, views};
use crate::holiday_type::PublicHolidayType;
use crate::orthodox_provider::{lemma_orthodox_easter_window, orthodox_easter, OrthodoxProvider};
use crate::public_holiday::{fixed_view, movable_view, HolidayView, PublicHoliday};

verus! {

/// The Greek holidays of `year`, in the order in which they are listed.
pub open spec fn greece_holidays(year: i32) -> Seq<HolidayView> {
    let cc = CountryCode::GR;
    let easter = orthodox_easter(year).count();
    seq![
        fixed_view(year, 1, 1, "Πρωτοχρονιά"@, "New Year's Day"@, cc, None, None),
        fixed_view(year, 1, 6, "Θεοφάνεια"@, "Epiphany"@, cc, None, None),
        movable_view(easter - 48, "Καθαρά Δευτέρα"@, "Clean Monday"@, cc),
        fixed_view(year, 3, 25, "Ευαγγελισμός της Θεοτόκου"@, "Annunciation"@, cc, None, None),
        fixed_view(year, 3, 25, "Εικοστή Πέμπτη Μαρτίου"@, "Independence Day"@, cc, None, None),
        movable_view(easter - 2, "Μεγάλη Παρασκευή"@, "Good Friday"@, cc),
        movable_view(easter, "Κυριακή του Πάσχα"@, "Easter Sunday"@, cc),
        movable_view(easter + 1, "Δευτέρα του Πάσχα"@, "Easter Monday"@, cc),
        fixed_view(year, 5, 1, "Εργατική Πρωτομαγιά"@, "Labour Day"@, cc, None, None),
        movable_view(easter + 49, "Πεντηκοστή'"@, "Pentecost"@, cc),
        movable_view(easter + 50, "Δευτέρα Πεντηκοστής"@, "Whit Monday"@, cc),
        fixed_view(year, 8, 15, "Κοίμηση της Θεοτόκου"@, "Assumption Day"@, cc, None, None),
        fixed_view(year, 10, 28, "Το Όχι"@, "Ochi Day"@, cc, None, None),
        fixed_view(year, 12, 25, "Χριστούγεννα"@, "Christmas Day"@, cc, None, None),
        fixed_view(year, 12, 26, "Σύναξις Υπεραγίας Θεοτόκου Μαρίας"@, "St. Stephen's Day"@, cc, None, None),
    ]
}

/// Holidays of Greece.
pub struct GreeceHolidayProvider {}

impl GreeceHolidayProvider {
    const COUNTRY_CODE: CountryCode = CountryCode::GR;

    /// The Greek holidays of `year`, in ascending order of date.
    pub fn get_holidays(year: i32) -> (r: Vec<PublicHoliday>)
        requires
            supported_year(year as int),
        ensures
            views(r@) == sort_by_day(greece_holidays(year)),
            all_dates_valid(r@),
    {
        let cc = Self::COUNTRY_CODE;
        let easter = OrthodoxProvider::get_orthodox_easter(year);
        proof {
            lemma_orthodox_easter_window(year);
        }
        let mut holidays: Vec<PublicHoliday> = Vec::new();
        push_holiday(&mut holidays, PublicHoliday::new_fixed(
            year, 1, 1, "Πρωτοχρονιά", "New Year's Day", cc, None, None, PublicHolidayType::Public,
        ));
        push_holiday(&mut holidays, PublicHoliday::new_fixed(
            year, 1, 6, "Θεοφάνεια", "Epiphany", cc, None, None, PublicHolidayType::Public,
        ));
        push_holiday(&mut holidays, PublicHoliday::relative_to(easter, -48, "Καθαρά Δευτέρα", "Clean Monday", cc));
        push_holiday(&mut holidays, PublicHoliday::new_fixed(
            year, 3, 25, "Ευαγγελισμός της Θεοτόκου", "Annunciation", cc, None, None, PublicHolidayType::Public,
        ));
        push_holiday(&mut holidays, PublicHoliday::new_fixed(
            year, 3, 25, "Εικοστή Πέμπτη Μαρτίου", "Independence Day", cc, None, None, PublicHolidayType::Public,
        ));
        push_holiday(&mut holidays, OrthodoxProvider::good_friday("Μεγάλη Παρασκευή", year, cc));
        push_holiday(&mut holidays, OrthodoxProvider::easter_sunday("Κυριακή του Πάσχα", year, cc));
        push_holiday(&mut holidays, OrthodoxProvider::easter_monday("Δευτέρα του Πάσχα", year, cc));
        push_holiday(&mut holidays, PublicHoliday::new_fixed(
            year, 5, 1, "Εργατική Πρωτομαγιά", "Labour Day", cc, None, None, PublicHolidayType::Public,
        ));
        push_holiday(&mut holidays, OrthodoxProvider::pentecost("Πεντηκοστή'", year, cc));
        push_holiday(&mut holidays, OrthodoxProvider::whit_monday("Δευτέρα Πεντηκοστής", year, cc));
        push_holiday(&mut holidays, PublicHoliday::new_fixed(
            year, 8, 15, "Κοίμηση της Θεοτόκου", "Assumption Day", cc, None, None, PublicHolidayType::Public,
        ));
        push_holiday(&mut holidays, PublicHoliday::new_fixed(
            year, 10, 28, "Το Όχι", "Ochi Day", cc, None, None, PublicHolidayType::Public,
        ));
        push_holiday(&mut holidays, PublicHoliday::new_fixed(
            year, 12, 25, "Χριστούγεννα", "Christmas Day", cc, None, None, PublicHolidayType::Public,
        ));
        push_holiday(&mut holidays, PublicHoliday::new_fixed(
            year, 12, 26, "Σύναξις Υπεραγίας Θεοτόκου Μαρίας", "St. Stephen's Day", cc, None, None, PublicHolidayType::Public,
        ));
        assert(views(holidays@) =~= greece_holidays(year));
        sort_by_date(holidays)
    }
}

} // verus!
