//! How prices from several sources are combined.

use vstd::prelude::*;

verus! {

/// The supported ways of aggregating price data.
#[derive(Debug, Clone, Copy, PartialEq, Eq, Structural)]
pub enum AggregationMode {
    /// The median of the sources.
    Median,
    /// The time-weighted average price. This is the default.
    Twap,
}

impl AggregationMode {
    /// The name of the mode as the service spells it.
    pub open spec fn name(self) -> Seq<char> {
        match self {
            AggregationMode::Median => "median"@,
            AggregationMode::Twap => "twap"@,
        }
    }

    /// Returns the name of the mode as the service expects it.
    pub fn as_str(&self) -> (s: &'static str)
        ensures
            s@ == self.name(),
    {
        match self {
            AggregationMode::Median => "median",
            AggregationMode::Twap => "twap",
        }
    }
}

impl Default for AggregationMode {
    fn default() -> (mode: Self)
        ensures
            mode == AggregationMode::Twap,
    {
        AggregationMode::Twap
    }
}

} // verus!
