//! The onchain entry of a trading pair.

use crate::http::{optional, push_optional, QueryView};
use crate::text::{bool_to_string, decimal, pair_path, pair_url, truth, u128_to_string};
use crate::types::aggregation::AggregationMode;
use crate::types::network::Network;
use vstd::prelude::*;

verus! {

/// The parameters of a query for an onchain entry.
#[derive(Debug, Clone, Default)]
pub struct GetOnchainEntryParams {
    /// The network to read from.
    pub network: Network,
    /// How to aggregate.
    pub aggregation: Option<AggregationMode>,
    /// Whether to route through other pairs.
    pub routing: Option<bool>,
    /// The moment to retrieve data for.
    pub timestamp: Option<u64>,
    /// Whether the answer shall hold the components.
    pub components: Option<bool>,
}

impl GetOnchainEntryParams {
    /// The query that these parameters stand for: the network, then each
    /// optional parameter that is set, under its name, in the order of the
    /// fields.
    pub open spec fn query(self) -> QueryView {
        seq![("network"@, self.network.name())] + optional(
            "aggregation"@,
            match self.aggregation {
                Some(mode) => Some(mode.name()),
                None => None,
            },
        ) + optional(
            "routing"@,
            match self.routing {
                Some(routing) => Some(truth(routing)),
                None => None,
            },
        ) + optional(
            "timestamp"@,
            match self.timestamp {
                Some(ts) => Some(decimal(ts as nat)),
                None => None,
            },
        ) + optional(
            "components"@,
            match self.components {
                Some(components) => Some(truth(components)),
                None => None,
            },
        )
    }

    /// Builds the query that these parameters stand for.
    pub fn to_query(&self) -> (query: Vec<(&'static str, String)>)
        ensures
            query.deep_view() == self.query(),
    {
        let mut query: Vec<(&'static str, String)> = Vec::new();
        assert(query.deep_view() =~= Seq::empty());
        push_optional(&mut query, "network", Some(self.network.as_str().to_owned()));
        let aggregation = match self.aggregation {
            Some(mode) => Some(mode.as_str().to_owned()),
            None => None,
        };
        push_optional(&mut query, "aggregation", aggregation);
        let routing = match self.routing {
            Some(routing) => Some(bool_to_string(routing)),
            None => None,
        };
        push_optional(&mut query, "routing", routing);
        let timestamp = match self.timestamp {
            Some(ts) => Some(u128_to_string(ts as u128)),
            None => None,
        };
        push_optional(&mut query, "timestamp", timestamp);
        let components = match self.components {
            Some(components) => Some(bool_to_string(components)),
            None => None,
        };
        push_optional(&mut query, "components", components);
        assert(query.deep_view() =~= self.query());
        query
    }
}

/// The address of the onchain entry of the pair `base`/`quote`.
pub fn onchain_entry_url(base_url: &str, base: &str, quote: &str) -> (url: String)
    ensures
        url@ == pair_path(base_url@, "/node/v1/onchain/"@, base@, quote@),
{
    pair_url(base_url, "/node/v1/onchain/", base, quote)
}

/// What one publisher contributed to an onchain entry.
#[derive(Debug, Clone, PartialEq, Eq)]
pub struct OnchainComponent {
    /// The price, as text.
    pub price: String,
    /// Who published the price.
    pub publisher: String,
    /// The source of the price.
    pub source: String,
    /// When the price was taken.
    pub timestamp: u64,
    /// The hash of the transaction that carried it.
    pub tx_hash: String,
}

/// The answer to a query for an onchain entry.
#[derive(Debug, Clone, PartialEq, Eq)]
pub struct GetOnchainEntryResponse {
    /// The kind of asset.
    pub asset_type: String,
    /// The number of decimal places of the price.
    pub decimals: u32,
    /// When the entry was last updated.
    pub last_updated_timestamp: u64,
    /// The number of sources that were aggregated.
    pub nb_sources_aggregated: u32,
    /// The trading pair.
    pub pair_id: String,
    /// The aggregated price.
    pub price: String,
    /// The components of the price, where they were asked for.
    pub components: Option<Vec<OnchainComponent>>,
}

} // verus!
