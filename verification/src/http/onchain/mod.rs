//! The endpoints that serve data read from the chain.

pub mod get_onchain_entry;
