//! Ordinal of a weekday within a month.
use vstd::prelude::*;

verus! {

/// Which occurrence of a weekday within a month is meant.
#[derive(Clone, Copy, Debug, PartialEq, Eq, Structural)]
pub enum Occurrence {
    First,
    Second,
    Third,
    Fourth,
    /// Some months hold a fifth occurrence of a weekday.
    Fifth,
}

impl Occurrence {
    pub open spec fn spec_ordinal(self) -> int {
        match self {
            Occurrence::First => 1,
            Occurrence::Second => 2,
            Occurrence::Third => 3,
            Occurrence::Fourth => 4,
            Occurrence::Fifth => 5,
        }
    }

    /// The ordinal, from 1 to 5.
    pub fn ordinal(&self) -> (r: u32)
        ensures
            r == self.spec_ordinal(),
            1 <= r <= 5,
    {
        match self {
            Occurrence::First => 1,
            Occurrence::Second => 2,
            Occurrence::Third => 3,
            Occurrence::Fourth => 4,
            Occurrence::Fifth => 5,
        }
    }
}

} // verus!
