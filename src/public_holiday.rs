//! One holiday occurrence, and its mathematical view.
use vstd::prelude::*;
use vstd::string::StringExecFns;

use crate::calendar::{iso_midnight, iso_midnight_four_digit, lemma_date_bounds, lemma_month_starts, valid_ymd, Date};
use crate::country_code::CountryCode;
use crate::holiday_type::PublicHolidayType;

verus! {

/// The views of a sequence of strings.
pub open spec fn texts(s: Seq<String>) -> Seq<Seq<char>> {
    s.map_values(|t: String| t@)
}

/// The views of a sequence of string slices.
pub open spec fn str_texts(s: Seq<&str>) -> Seq<Seq<char>> {
    s.map_values(|c: &str| c@)
}

/// The view of an optional list of subdivision codes.
pub open spec fn county_texts(c: Option<Vec<String>>) -> Option<Seq<Seq<char>>> {
    match c {
        Some(v) => Some(texts(v@)),
        None => None,
    }
}

/// A holiday as a value: its date is a proleptic Gregorian day count.
pub struct HolidayView {
    pub day: int,
    pub local_name: Seq<char>,
    pub name: Seq<char>,
    pub country_code: CountryCode,
    pub fixed: bool,
    pub counties: Option<Seq<Seq<char>>>,
    pub holiday_type: PublicHolidayType,
    pub launch_year: Option<i32>,
}

/// View of a nationwide public holiday whose date is computed, on day `day`.
pub open spec fn movable_view(
    day: int,
    local_name: Seq<char>,
    name: Seq<char>,
    country_code: CountryCode,
) -> HolidayView {
    HolidayView {
        day,
        local_name,
        name,
        country_code,
        fixed: false,
        counties: None,
        holiday_type: PublicHolidayType::Public,
        launch_year: None,
    }
}

/// View of a public holiday on the same (month, day) every year, in `year`.
pub open spec fn fixed_view(
    year: i32,
    month: u32,
    day: u32,
    local_name: Seq<char>,
    name: Seq<char>,
    country_code: CountryCode,
    launch_year: Option<i32>,
    counties: Option<Seq<Seq<char>>>,
) -> HolidayView {
    HolidayView {
        day: (Date { year, month, day }).count(),
        local_name,
        name,
        country_code,
        fixed: true,
        counties,
        holiday_type: PublicHolidayType::Public,
        launch_year,
    }
}

/// View of a public holiday whose date is computed, on day `day`.
pub open spec fn dated_view(
    day: int,
    local_name: Seq<char>,
    name: Seq<char>,
    country_code: CountryCode,
    launch_year: Option<i32>,
    counties: Option<Seq<Seq<char>>>,
) -> HolidayView {
    HolidayView {
        day,
        local_name,
        name,
        country_code,
        fixed: false,
        counties,
        holiday_type: PublicHolidayType::Public,
        launch_year,
    }
}

/// Views of the holiday that an optional result holds: none or one.
pub open spec fn optional_views(h: Option<PublicHoliday>) -> Seq<HolidayView> {
    match h {
        Some(x) => seq![x@],
        None => seq![],
    }
}

/// Views of a list of (code, name) pairs.
pub open spec fn pair_texts(s: Seq<(String, String)>) -> Seq<(Seq<char>, Seq<char>)> {
    s.map_values(|p: (String, String)| (p.0@, p.1@))
}

/// Owned copies of subdivision codes.
pub(crate) fn county_list(codes: &[&str]) -> (r: Vec<String>)
    ensures
        texts(r@) == str_texts(codes@),
{
    let mut r: Vec<String> = Vec::new();
    let mut i: usize = 0;
    while i < codes.len()
        invariant
            i <= codes@.len(),
            texts(r@) == str_texts(codes@.take(i as int)),
        decreases codes@.len() - i,
    {
        let code = codes[i].to_string();
        assert(code@ == codes@[i as int]@);
        let ghost before = r@;
        r.push(code);
        assert(texts(r@) =~= texts(before).push(code@));
        assert(codes@.take(i + 1) =~= codes@.take(i as int).push(codes@[i as int]));
        assert(str_texts(codes@.take(i + 1)) =~= str_texts(codes@.take(i as int)).push(
            codes@[i as int]@,
        ));
        i = i + 1;
    }
    assert(codes@.take(i as int) =~= codes@);
    r
}

/// One holiday occurrence.
#[derive(Debug)]
pub struct PublicHoliday {
    pub date: Date,
    pub local_name: String,
    pub name: String,
    pub country_code: CountryCode,
    /// The date is the same (month, day) every year.
    pub fixed: bool,
    /// Subdivisions where the holiday applies; `None` means nationwide.
    pub counties: Option<Vec<String>>,
    pub holiday_type: PublicHolidayType,
    /// First year in which the holiday is observed.
    pub launch_year: Option<i32>,
}

impl View for PublicHoliday {
    type V = HolidayView;

    open spec fn view(&self) -> HolidayView {
        HolidayView {
            day: self.date.count(),
            local_name: self.local_name@,
            name: self.name@,
            country_code: self.country_code,
            fixed: self.fixed,
            counties: county_texts(self.counties),
            holiday_type: self.holiday_type,
            launch_year: self.launch_year,
        }
    }
}

impl PublicHoliday {
    /// A holiday on the same (month, day) every year, here in `year`.
    pub fn new_fixed(
        year: i32,
        month: u32,
        day: u32,
        local_name: &str,
        name: &str,
        country_code: CountryCode,
        launch_year: Option<i32>,
        counties: Option<Vec<String>>,
        holiday_type: PublicHolidayType,
    ) -> (r: Self)
        requires
            valid_ymd(year as int, month as int, day as int),
        ensures
            r.date == (Date { year, month, day }),
            r.local_name@ == local_name@,
            r.name@ == name@,
            r.country_code == country_code,
            r.fixed,
            r.counties == counties,
            r.holiday_type == holiday_type,
            r.launch_year == launch_year,
    {
        PublicHoliday {
            date: Date::new(year, month, day),
            local_name: local_name.to_string(),
            name: name.to_string(),
            country_code,
            fixed: true,
            counties,
            holiday_type,
            launch_year,
        }
    }

    /// A holiday whose date is computed for the year.
    pub fn new_non_fixed(
        date: Date,
        local_name: &str,
        name: &str,
        country_code: CountryCode,
        launch_year: Option<i32>,
        counties: Option<Vec<String>>,
        holiday_type: PublicHolidayType,
    ) -> (r: Self)
        ensures
            r.date == date,
            r.local_name@ == local_name@,
            r.name@ == name@,
            r.country_code == country_code,
            !r.fixed,
            r.counties == counties,
            r.holiday_type == holiday_type,
            r.launch_year == launch_year,
    {
        PublicHoliday {
            date,
            local_name: local_name.to_string(),
            name: name.to_string(),
            country_code,
            fixed: false,
            counties,
            holiday_type,
            launch_year,
        }
    }

    /// A nationwide public holiday `offset` days after the feast on `base`
    /// (before it, where `offset` is negative).
    pub(crate) fn relative_to(
        base: Date,
        offset: i64,
        local_name: &str,
        name: &str,
        country_code: CountryCode,
    ) -> (r: Self)
        requires
            base.wf(),
            3 <= base.month <= 5,
            -50 <= offset <= 60,
        ensures
            r@ == movable_view(base.count() + offset, local_name@, name@, country_code),
            r.date.wf(),
    {
        proof {
            lemma_month_starts(base.year as int);
            lemma_date_bounds(Date { year: base.year, month: 1, day: 1 });
            lemma_date_bounds(Date { year: base.year, month: 12, day: 31 });
        }
        let date = base.plus_days(offset);
        PublicHoliday::new_non_fixed(date, local_name, name, country_code, None, None, PublicHolidayType::Public)
    }

    /// Whether the holiday applies nationwide.
    pub fn global(&self) -> (r: bool)
        ensures
            r == self.counties.is_none(),
    {
        self.counties.is_none()
    }

    /// Restricts the holiday to the given subdivisions.
    pub fn set_counties(&mut self, counties: Vec<String>)
        ensures
            final(self).counties == Some(counties),
            final(self).date == old(self).date,
            final(self).local_name == old(self).local_name,
            final(self).name == old(self).name,
            final(self).country_code == old(self).country_code,
            final(self).fixed == old(self).fixed,
            final(self).holiday_type == old(self).holiday_type,
            final(self).launch_year == old(self).launch_year,
    {
        self.counties = Some(counties);
    }

    /// Sets the first year in which the holiday is observed.
    pub fn set_launch_year(&mut self, launch_year: i32)
        ensures
            final(self).launch_year == Some(launch_year),
            final(self).date == old(self).date,
            final(self).local_name == old(self).local_name,
            final(self).name == old(self).name,
            final(self).country_code == old(self).country_code,
            final(self).fixed == old(self).fixed,
            final(self).counties == old(self).counties,
            final(self).holiday_type == old(self).holiday_type,
    {
        self.launch_year = Some(launch_year);
    }

    /// Sets the classification of the holiday.
    pub fn set_holiday_type(&mut self, holiday_type: PublicHolidayType)
        ensures
            final(self).holiday_type == holiday_type,
            final(self).date == old(self).date,
            final(self).local_name == old(self).local_name,
            final(self).name == old(self).name,
            final(self).country_code == old(self).country_code,
            final(self).fixed == old(self).fixed,
            final(self).counties == old(self).counties,
            final(self).launch_year == old(self).launch_year,
    {
        self.holiday_type = holiday_type;
    }

    /// `"{date}T00:00:00Z {name}"`, for logging.
    pub fn to_text(&self) -> (r: String)
        requires
            self.date.wf(),
        ensures
            r@ == iso_midnight(self.date.year as int, self.date.month as int, self.date.day as int)
                + " "@ + self.name@,
            0 <= self.date.year <= 9999 ==> r@ == iso_midnight_four_digit(
                self.date.year as int,
                self.date.month as int,
                self.date.day as int,
            ) + " "@ + self.name@,
    {
        Self::labelled(self.date.midnight_text(), self.name.as_str())
    }

    /// `date_text`, a space, then `name`.
    pub fn labelled(date_text: String, name: &str) -> (r: String)
        ensures
            r@ == date_text@ + " "@ + name@,
    {
        let text = date_text.concat(" ");
        text.concat(name)
    }
}

} // verus!
