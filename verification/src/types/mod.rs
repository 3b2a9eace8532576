//! The vocabulary of the service's queries.

pub mod aggregation;
pub mod entry_type;
pub mod interval;
pub mod network;
