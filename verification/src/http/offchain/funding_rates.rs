//! The funding-rate endpoints: the latest rate of a pair on a source, and
//! its history.

use crate::http::{optional, push_optional, QueryView};
use crate::text::{decimal, pair_path, pair_url, u128_to_string};
use vstd::prelude::*;

verus! {

/// The address of the latest funding rate of the pair `base`/`quote`.
pub fn funding_rates_url(base_url: &str, base: &str, quote: &str) -> (url: String)
    ensures
        url@ == pair_path(base_url@, "/node/v1/funding_rates/"@, base@, quote@),
{
    pair_url(base_url, "/node/v1/funding_rates/", base, quote)
}

/// The query for the latest funding rate on `source`, or for the last one
/// before `timestamp_s` where it is given.
pub open spec fn funding_rates_query_view(
    source: Seq<char>,
    timestamp_s: Option<u64>,
) -> QueryView {
    seq![("source"@, source)] + optional(
        "timestamp"@,
        match timestamp_s {
            Some(ts) => Some(decimal(ts as nat)),
            None => None,
        },
    )
}

/// Builds the query for a funding rate: the source, then the moment, in
/// seconds since the Unix epoch, where one is given.
pub fn funding_rates_query(source: &str, timestamp_s: Option<u64>) -> (query: Vec<
    (&'static str, String),
>)
    ensures
        query.deep_view() == funding_rates_query_view(source@, timestamp_s),
{
    let mut query: Vec<(&'static str, String)> = Vec::new();
    assert(query.deep_view() =~= Seq::empty());
    push_optional(&mut query, "source", Some(source.to_owned()));
    let timestamp = match timestamp_s {
        Some(ts) => Some(u128_to_string(ts as u128)),
        None => None,
    };
    push_optional(&mut query, "timestamp", timestamp);
    assert(query.deep_view() =~= funding_rates_query_view(source@, timestamp_s));
    query
}

/// The address of the history of funding rates of the pair `base`/`quote`.
pub fn historical_funding_rates_url(base_url: &str, base: &str, quote: &str) -> (url: String)
    ensures
        url@ == pair_path(base_url@, "/node/v1/funding_rates/history/"@, base@, quote@),
{
    pair_url(base_url, "/node/v1/funding_rates/history/", base, quote)
}

/// A range of time as the service expects it: both ends in decimal
/// notation with a comma between them.
pub open spec fn time_range(from_ts: u128, to_ts: u128) -> Seq<char> {
    decimal(from_ts as nat) + ","@ + decimal(to_ts as nat)
}

/// The query for the funding rates on `source` between two moments.
pub open spec fn historical_funding_rates_query_view(
    from_ts: u128,
    to_ts: u128,
    source: Seq<char>,
) -> QueryView {
    seq![("timestamp"@, time_range(from_ts, to_ts)), ("source"@, source)]
}

/// Builds the query for a history of funding rates: the range of time,
/// then the source.
pub fn historical_funding_rates_query(from_ts: u128, to_ts: u128, source: &str) -> (query: Vec<
    (&'static str, String),
>)
    ensures
        query.deep_view() == historical_funding_rates_query_view(from_ts, to_ts, source@),
{
    let mut range = u128_to_string(from_ts);
    range.append(",");
    let to = u128_to_string(to_ts);
    range.append(to.as_str());
    let mut query: Vec<(&'static str, String)> = Vec::new();
    assert(query.deep_view() =~= Seq::empty());
    push_optional(&mut query, "timestamp", Some(range));
    push_optional(&mut query, "source", Some(source.to_owned()));
    assert(query.deep_view() =~= historical_funding_rates_query_view(from_ts, to_ts, source@));
    query
}

} // verus!
