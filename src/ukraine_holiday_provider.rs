//! Holidays of Ukraine.
use vstd::prelude::*;

use crate::calendar::supported_year;
use crate::country_code::CountryCode;
use crate::date_order::{all_dates_valid, push_holiday, sort_by_date, sort_by_day, views};
use crate::holiday_type::PublicHolidayType;
use crate::orthodox_provider::{orthodox_easter, OrthodoxProvider};
use crate::public_holiday::{fixed_view, movable_view, HolidayView, PublicHoliday};

verus! {

/// The Ukrainian holidays of `year`, in the order in which they are listed.
pub open spec fn ukraine_holidays(year: i32) -> Seq<HolidayView> {
    let cc = CountryCode::UA;
    let easter = orthodox_easter(year).count();
    seq![
        fixed_view(year, 1, 1, "Новий Рік"@, "New Year's Day"@, cc, None, None),
        fixed_view(year, 1, 7, "Різдво"@, "(Julian) Christmas"@, cc, None, None),
        fixed_view(year, 3, 8, "Міжнародний жіночий день"@, "International Women's Day"@, cc, None, None),
        movable_view(easter, "Великдень"@, "Easter Sunday"@, cc),
        movable_view(easter + 49, "Трійця"@, "Pentecost"@, cc),
        fixed_view(year, 5, 1, "День праці"@, "International Workers' Day"@, cc, None, None),
        fixed_view(year, 5, 9, "День перемоги над нацизмом у Другій світовій війні"@, "Victory day over Nazism in World War II"@, cc, None, None),
        fixed_view(year, 6, 28, "День Конституції"@, "Constitution Day"@, cc, None, None),
        fixed_view(year, 8, 24, "День Незалежності"@, "Independence Day"@, cc, None, None),
        fixed_view(year, 10, 14, "День захисника України"@, "Defender of Ukraine Day"@, cc, None, None),
        fixed_view(year, 12, 25, "Різдво"@, "(Gregorian and Revised Julian) Christmas"@, cc, None, None),
    ]
}

/// Holidays of Ukraine.
pub struct UkrainHolidayProvider {}

impl UkrainHolidayProvider {
    const COUNTRY_CODE: CountryCode = CountryCode::UA;

    /// The Ukrainian holidays of `year`, in ascending order of date.
    pub fn get_holidays(year: i32) -> (r: Vec<PublicHoliday>)
        requires
            supported_year(year as int),
        ensures
            views(r@) == sort_by_day(ukraine_holidays(year)),
            all_dates_valid(r@),
    {
        let cc = Self::COUNTRY_CODE;
        let mut holidays: Vec<PublicHoliday> = Vec::new();
        push_holiday(&mut holidays, PublicHoliday::new_fixed(
            year, 1, 1, "Новий Рік", "New Year's Day", cc, None, None, PublicHolidayType::Public,
        ));
        push_holiday(&mut holidays, PublicHoliday::new_fixed(
            year, 1, 7, "Різдво", "(Julian) Christmas", cc, None, None, PublicHolidayType::Public,
        ));
        push_holiday(&mut holidays, PublicHoliday::new_fixed(
            year, 3, 8, "Міжнародний жіночий день", "International Women's Day", cc, None, None, PublicHolidayType::Public,
        ));
        push_holiday(&mut holidays, OrthodoxProvider::easter_sunday("Великдень", year, cc));
        push_holiday(&mut holidays, OrthodoxProvider::pentecost("Трійця", year, cc));
        push_holiday(&mut holidays, PublicHoliday::new_fixed(
            year, 5, 1, "День праці", "International Workers' Day", cc, None, None, PublicHolidayType::Public,
        ));
        push_holiday(&mut holidays, PublicHoliday::new_fixed(
            year, 5, 9, "День перемоги над нацизмом у Другій світовій війні", "Victory day over Nazism in World War II", cc, None, None, PublicHolidayType::Public,
        ));
        push_holiday(&mut holidays, PublicHoliday::new_fixed(
            year, 6, 28, "День Конституції", "Constitution Day", cc, None, None, PublicHolidayType::Public,
        ));
        push_holiday(&mut holidays, PublicHoliday::new_fixed(
            year, 8, 24, "День Незалежності", "Independence Day", cc, None, None, PublicHolidayType::Public,
        ));
        push_holiday(&mut holidays, PublicHoliday::new_fixed(
            year, 10, 14, "День захисника України", "Defender of Ukraine Day", cc, None, None, PublicHolidayType::Public,
        ));
        push_holiday(&mut holidays, PublicHoliday::new_fixed(
            year, 12, 25, "Різдво", "(Gregorian and Revised Julian) Christmas", cc, None, None, PublicHolidayType::Public,
        ));
        assert(views(holidays@) =~= ukraine_holidays(year));
        sort_by_date(holidays)
    }
}

} // verus!
