//! Jurisdictions, by ISO 3166 alpha-2 code.
use vstd::prelude::*;

verus! {

/// Country, by ISO 3166 alpha-2 code.
#[derive(Clone, Copy, Debug, PartialEq, Eq, Structural)]
pub enum CountryCode {
    /// Austria
    AT,
    /// Belgium
    BE,
    /// Switzerland
    CH,
    /// Germany
    DE,
    /// Spain
    ES,
    /// France
    FR,
    /// United Kingdom
    GB,
    /// Greece
    GR,
    /// Italy
    IT,
    /// Netherlands
    NL,
    /// Poland
    PL,
    /// Russia
    RU,
    /// Ukraine
    UA,
    /// United States
    US,
}

} // verus!
