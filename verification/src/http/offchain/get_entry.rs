//! The "Data Pair" endpoint: the aggregated price of a trading pair.

use crate::http::{optional, push_optional, QueryView};
use crate::text::{
    bool_to_string, decimal, pair_path, pair_url, replaced, str_replace, truth,
    u128_from_str_radix, u128_to_string, unsigned_value,
};
use crate::types::aggregation::AggregationMode;
use crate::types::entry_type::EntryType;
use crate::types::interval::Interval;
use bigdecimal::BigDecimal;
use std::num::ParseIntError;
use vstd::prelude::*;

verus! {

/// The optional parameters of a query for an entry.
#[derive(Debug, Clone, Default)]
pub struct GetEntryParams {
    /// The moment to retrieve data for, in milliseconds since the Unix epoch.
    pub timestamp: Option<u64>,
    /// The interval over which to aggregate.
    pub interval: Option<Interval>,
    /// Whether to route through other pairs.
    pub routing: Option<bool>,
    /// How to aggregate.
    pub aggregation: Option<AggregationMode>,
    /// The kind of entry to retrieve.
    pub entry_type: Option<EntryType>,
    /// Whether the answer shall hold the components.
    pub with_components: Option<bool>,
}

impl GetEntryParams {
    /// The query that these parameters stand for: each parameter that is
    /// set, under its name, in the order of the fields.
    pub open spec fn query(self) -> QueryView {
        optional(
            "timestamp"@,
            match self.timestamp {
                Some(ts) => Some(decimal(ts as nat)),
                None => None,
            },
        ) + optional(
            "interval"@,
            match self.interval {
                Some(interval) => Some(interval.name()),
                None => None,
            },
        ) + optional(
            "routing"@,
            match self.routing {
                Some(routing) => Some(truth(routing)),
                None => None,
            },
        ) + optional(
            "aggregation"@,
            match self.aggregation {
                Some(mode) => Some(mode.name()),
                None => None,
            },
        ) + optional(
            "entry_type"@,
            match self.entry_type {
                Some(kind) => Some(kind.name()),
                None => None,
            },
        ) + optional(
            "with_components"@,
            match self.with_components {
                Some(wc) => Some(truth(wc)),
                None => None,
            },
        )
    }

    /// Builds the query that these parameters stand for.
    pub fn to_query(&self) -> (query: Vec<(&'static str, String)>)
        ensures
            query.deep_view() == self.query(),
    {
        let mut query: Vec<(&'static str, String)> = Vec::new();
        assert(query.deep_view() =~= Seq::empty());
        let timestamp = match self.timestamp {
            Some(ts) => Some(u128_to_string(ts as u128)),
            None => None,
        };
        push_optional(&mut query, "timestamp", timestamp);
        let interval = match self.interval {
            Some(interval) => Some(interval.as_str().to_owned()),
            None => None,
        };
        push_optional(&mut query, "interval", interval);
        let routing = match self.routing {
            Some(routing) => Some(bool_to_string(routing)),
            None => None,
        };
        push_optional(&mut query, "routing", routing);
        let aggregation = match self.aggregation {
            Some(mode) => Some(mode.as_str().to_owned()),
            None => None,
        };
        push_optional(&mut query, "aggregation", aggregation);
        let entry_type = match self.entry_type {
            Some(kind) => Some(kind.as_str().to_owned()),
            None => None,
        };
        push_optional(&mut query, "entry_type", entry_type);
        let with_components = match self.with_components {
            Some(wc) => Some(bool_to_string(wc)),
            None => None,
        };
        push_optional(&mut query, "with_components", with_components);
        assert(query.deep_view() =~= self.query());
        query
    }
}

/// The address of the entry of the pair `base`/`quote`.
pub fn entry_url(base_url: &str, base: &str, quote: &str) -> (url: String)
    ensures
        url@ == pair_path(base_url@, "/node/v1/data/"@, base@, quote@),
{
    pair_url(base_url, "/node/v1/data/", base, quote)
}

/// The price that one source contributed.
#[derive(Debug, Clone, PartialEq, Eq)]
pub struct Component {
    /// The price, as text.
    pub price: String,
    /// The source of the price.
    pub source: String,
    /// When the price was taken, in milliseconds since the Unix epoch.
    pub timestamp: u64,
}

/// A price as a whole number of units of ten to the power of minus `scale`.
#[derive(Debug, Clone, Copy, PartialEq, Eq, Structural)]
pub struct ScaledPrice {
    pub digits: u128,
    pub scale: i64,
}

/// The decimal numbers of arbitrary precision of the `bigdecimal` crate.
#[verifier::external_type_specification]
#[verifier::external_body]
pub struct ExBigDecimal(BigDecimal);

/// `BigDecimal::new`, on `digits` as a `BigInt` and on `scale`. Nothing
/// is claimed of the number that it returns.
#[verifier::external_body]
fn big_decimal(digits: u128, scale: i64) -> BigDecimal {
    BigDecimal::new(digits.into(), scale)
}

/// The answer of the "Data Pair" endpoint.
#[derive(Debug, Clone, PartialEq, Eq)]
pub struct GetEntryResponse {
    /// The number of decimal places of the price.
    pub decimals: u32,
    /// The number of sources that were aggregated.
    pub num_sources_aggregated: u32,
    /// The trading pair, such as "BTC/USD".
    pub pair_id: String,
    /// The aggregated price, in hexadecimal notation.
    pub price: String,
    /// When the price was taken, in milliseconds since the Unix epoch.
    pub timestamp: u64,
    /// The components of the price, where they were asked for.
    pub components: Option<Vec<Component>>,
}

/// The number that a price in hexadecimal notation denotes, every `0x` in
/// it left out.
pub open spec fn hex_price(price: Seq<char>) -> Option<nat> {
    unsigned_value(replaced(price, "0x"@, ""@), 16)
}

/// Reads a price in hexadecimal notation.
pub fn parse_hex_price(price: &str) -> (r: Result<u128, ParseIntError>)
    ensures
        match r {
            Ok(v) => hex_price(price@) == Some(v as nat),
            Err(_) => match hex_price(price@) {
                Some(v) => v > u128::MAX,
                None => true,
            },
        },
{
    proof {
        reveal_strlit("0x");
    }
    let digits = str_replace(price, "0x", "");
    u128_from_str_radix(digits.as_str(), 16)
}

impl GetEntryResponse {
    /// The price as a number. Fails where the price, every `0x` in it left
    /// out, is no hexadecimal number that fits.
    pub fn price_u128(&self) -> (r: Result<u128, ParseIntError>)
        ensures
            match r {
                Ok(v) => hex_price(self.price@) == Some(v as nat),
                Err(_) => match hex_price(self.price@) {
                    Some(v) => v > u128::MAX,
                    None => true,
                },
            },
    {
        parse_hex_price(self.price.as_str())
    }

    /// The price as a whole number with the number of its decimal places.
    /// Fails as `price_u128` does.
    pub fn price_scaled(&self) -> (r: Result<ScaledPrice, ParseIntError>)
        ensures
            match r {
                Ok(p) => hex_price(self.price@) == Some(p.digits as nat) && p.scale
                    == self.decimals,
                Err(_) => match hex_price(self.price@) {
                    Some(v) => v > u128::MAX,
                    None => true,
                },
            },
    {
        match parse_hex_price(self.price.as_str()) {
            Ok(digits) => Ok(ScaledPrice { digits, scale: self.decimals as i64 }),
            Err(e) => Err(e),
        }
    }

    /// The price as a decimal number of arbitrary precision, made of what
    /// `price_scaled` returns. Fails as `price_u128` does.
    pub fn price_bd(&self) -> (r: Result<BigDecimal, ParseIntError>)
        ensures
            r is Ok <==> (hex_price(self.price@) matches Some(v) && v <= u128::MAX),
    {
        match self.price_scaled() {
            Ok(price) => Ok(big_decimal(price.digits, price.scale)),
            Err(e) => Err(e),
        }
    }
}

} // verus!
