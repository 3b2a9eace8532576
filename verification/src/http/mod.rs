//! The REST endpoints: where each one lives, which query it takes and
//! what it answers. The requests themselves are made by the caller.

use crate::text::join;
use vstd::prelude::*;

pub mod offchain;
pub mod onchain;

verus! {

/// The address that answers whether the service is up.
pub fn health_url(base_url: &str) -> (url: String)
    ensures
        url@ == base_url@ + "/node"@,
{
    join(base_url, "/node")
}

/// A query as a mathematical value: keys and values, in order.
pub type QueryView = Seq<(Seq<char>, Seq<char>)>;

/// The query that holds `key` with `value`, or nothing without a value.
pub open spec fn optional(key: Seq<char>, value: Option<Seq<char>>) -> QueryView {
    match value {
        Some(v) => seq![(key, v)],
        None => Seq::empty(),
    }
}

/// The text of `value`, where there is one.
pub open spec fn text_of(value: Option<String>) -> Option<Seq<char>> {
    match value {
        Some(v) => Some(v@),
        None => None,
    }
}

/// Appends `key` with `value` to `query`, or nothing without a value.
pub fn push_optional(
    query: &mut Vec<(&'static str, String)>,
    key: &'static str,
    value: Option<String>,
)
    ensures
        final(query).deep_view() == old(query).deep_view() + optional(key@, text_of(value)),
{
    match value {
        Some(v) => {
            query.push((key, v));
            assert(query.deep_view() =~= old(query).deep_view() + optional(key@, text_of(value)))
                by {
                assert(query.deep_view().len() == old(query).deep_view().len() + 1);
                assert forall|i: int| 0 <= i < query.deep_view().len() implies query.deep_view()[i]
                    == (old(query).deep_view() + optional(key@, text_of(value)))[i] by {
                    if i < old(query)@.len() {
                        assert(query@[i] == old(query)@[i]);
                    } else {
                        assert(query@[i] == (key, v));
                    }
                }
            }
        },
        None => {
            assert(query.deep_view() =~= old(query).deep_view() + optional(key@, text_of(value)));
        },
    }
}

} // verus!
