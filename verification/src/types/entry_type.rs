//! The kinds of market that an entry can come from.

use vstd::prelude::*;

verus! {

/// The kinds of entry that can be retrieved.
#[derive(Debug, Clone, Copy, PartialEq, Eq, Structural)]
pub enum EntryType {
    /// Spot prices.
    Spot,
    /// Prices of perpetual contracts.
    Perp,
}

impl EntryType {
    /// The name of the kind as the service spells it.
    pub open spec fn name(self) -> Seq<char> {
        match self {
            EntryType::Spot => "spot"@,
            EntryType::Perp => "perp"@,
        }
    }

    /// Returns the name of the kind as the service expects it.
    pub fn as_str(&self) -> (s: &'static str)
        ensures
            s@ == self.name(),
    {
        match self {
            EntryType::Spot => "spot",
            EntryType::Perp => "perp",
        }
    }
}

} // verus!
