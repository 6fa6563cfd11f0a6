//! Classification of a holiday.
use vstd::prelude::*;

verus! {

/// Primary classification of a holiday.
#[derive(Clone, Copy, Debug, PartialEq, Eq, Structural)]
pub enum PublicHolidayType {
    /// Public holiday
    Public,
    /// Bank holiday: banks and offices are closed
    Bank,
    /// School holiday: schools are closed
    School,
    /// Authorities are closed
    Authorities,
    /// Most people take a day off
    Optional,
    /// Festivity without a paid day off
    Observance,
}

} // verus!
