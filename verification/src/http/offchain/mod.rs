//! The endpoints that serve data aggregated off the chain.

pub mod funding_rates;
pub mod get_entry;
