//! Holidays of Russia.
use vstd::prelude::*;

use crate::calendar::{MAX_YEAR, MIN_YEAR};
use crate::country_code::CountryCode;
use crate::date_order::{all_dates_valid, push_holiday, sort_by_date, sort_by_day, views};
use crate::holiday_type::PublicHolidayType;
use crate::public_holiday::{fixed_view, HolidayView, PublicHoliday};

verus! {

/// The Russian holidays of `year`, in the order in which they are listed.
pub open spec fn russia_holidays(year: i32) -> Seq<HolidayView> {
    let cc = CountryCode::RU;
    seq![
        fixed_view(year, 1, 1, "Новый год"@, "New Year's Day"@, cc, None, None),
        fixed_view(year, 1, 2, "Новогодние каникулы"@, "New Year holiday"@, cc, None, None),
        fixed_view(year, 1, 3, "Новогодние каникулы"@, "New Year holiday"@, cc, None, None),
        fixed_view(year, 1, 4, "Новогодние каникулы"@, "New Year holiday"@, cc, None, None),
        fixed_view(year, 1, 5, "Новогодние каникулы"@, "New Year holiday"@, cc, None, None),
        fixed_view(year, 1, 6, "Новогодние каникулы"@, "New Year holiday"@, cc, None, None),
        fixed_view(year, 1, 7, "Рождество Христово"@, "Orthodox Christmas Day"@, cc, None, None),
        fixed_view(year, 2, 23, "День защитника Отечества"@, "Defender of the Fatherland Day"@, cc, Some(1918), None),
        fixed_view(year, 3, 8, "Международный женский день"@, "International Women's Day"@, cc, Some(1913), None),
        fixed_view(year, 5, 1, "День труда"@, "Labour Day"@, cc, None, None),
        fixed_view(year, 5, 9, "День Победы"@, "Victory Day"@, cc, None, None),
        fixed_view(year, 6, 12, "День России"@, "Russia Day"@, cc, Some(2002), None),
        fixed_view(year, 11, 4, "День народного единства"@, "Unity Day"@, cc, Some(2005), None),
    ]
}

/// Holidays of Russia.
pub struct RussiaHolidayProvider {}

impl RussiaHolidayProvider {
    const COUNTRYCODE: CountryCode = CountryCode::RU;

    /// The Russian holidays of `year`, in ascending order of date.
    pub fn get_holidays(year: i32) -> (r: Vec<PublicHoliday>)
        requires
            MIN_YEAR <= year <= MAX_YEAR,
        ensures
            views(r@) == sort_by_day(russia_holidays(year)),
            all_dates_valid(r@),
    {
        let cc = Self::COUNTRYCODE;
        let mut holidays: Vec<PublicHoliday> = Vec::new();
        push_holiday(&mut holidays, PublicHoliday::new_fixed(
            year, 1, 1, "Новый год", "New Year's Day", cc, None, None, PublicHolidayType::Public,
        ));
        push_holiday(&mut holidays, PublicHoliday::new_fixed(
            year, 1, 2, "Новогодние каникулы", "New Year holiday", cc, None, None, PublicHolidayType::Public,
        ));
        push_holiday(&mut holidays, PublicHoliday::new_fixed(
            year, 1, 3, "Новогодние каникулы", "New Year holiday", cc, None, None, PublicHolidayType::Public,
        ));
        push_holiday(&mut holidays, PublicHoliday::new_fixed(
            year, 1, 4, "Новогодние каникулы", "New Year holiday", cc, None, None, PublicHolidayType::Public,
        ));
        push_holiday(&mut holidays, PublicHoliday::new_fixed(
            year, 1, 5, "Новогодние каникулы", "New Year holiday", cc, None, None, PublicHolidayType::Public,
        ));
        push_holiday(&mut holidays, PublicHoliday::new_fixed(
            year, 1, 6, "Новогодние каникулы", "New Year holiday", cc, None, None, PublicHolidayType::Public,
        ));
        push_holiday(&mut holidays, PublicHoliday::new_fixed(
            year, 1, 7, "Рождество Христово", "Orthodox Christmas Day", cc, None, None, PublicHolidayType::Public,
        ));
        push_holiday(&mut holidays, PublicHoliday::new_fixed(
            year, 2, 23, "День защитника Отечества", "Defender of the Fatherland Day", cc, Some(1918), None, PublicHolidayType::Public,
        ));
        push_holiday(&mut holidays, PublicHoliday::new_fixed(
            year, 3, 8, "Международный женский день", "International Women's Day", cc, Some(1913), None, PublicHolidayType::Public,
        ));
        push_holiday(&mut holidays, PublicHoliday::new_fixed(
            year, 5, 1, "День труда", "Labour Day", cc, None, None, PublicHolidayType::Public,
        ));
        push_holiday(&mut holidays, PublicHoliday::new_fixed(
            year, 5, 9, "День Победы", "Victory Day", cc, None, None, PublicHolidayType::Public,
        ));
        push_holiday(&mut holidays, PublicHoliday::new_fixed(
            year, 6, 12, "День России", "Russia Day", cc, Some(2002), None, PublicHolidayType::Public,
        ));
        push_holiday(&mut holidays, PublicHoliday::new_fixed(
            year, 11, 4, "День народного единства", "Unity Day", cc, Some(2005), None, PublicHolidayType::Public,
        ));
        assert(views(holidays@) =~= russia_holidays(year));
        sort_by_date(holidays)
    }
}

} // verus!
