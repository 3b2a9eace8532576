//! Client library for the Pragma price-data service.
//!
//! The heart of the library is the typed WebSocket relay in [`ws`]: it
//! turns one connection into two independent typed channels and keeps the
//! connection alive with pings. Around it stand the configuration, the
//! vocabulary of the queries and the descriptions of the REST endpoints.
//! The library does no input or output: it decides, and its caller acts.

pub mod config;
pub mod errors;
pub mod http;
pub mod text;
pub mod types;
pub mod ws;

pub use config::{Config, Environment};
pub use errors::PragmaError;
pub use http::offchain::get_entry::{Component, GetEntryParams, GetEntryResponse};
pub use http::onchain::get_onchain_entry::{
    GetOnchainEntryParams, GetOnchainEntryResponse, OnchainComponent,
};
pub use types::aggregation::AggregationMode;
pub use types::entry_type::EntryType;
pub use types::interval::Interval;
pub use types::network::Network;
pub use ws::lightspeed::{LightspeedMessage, PriceUpdate};
pub use ws::starkex::{PriceUpdate as StarkexPriceUpdate, SignedPrice, StarkexMessage};
pub use ws::{PragmaWsClient, WsError};
