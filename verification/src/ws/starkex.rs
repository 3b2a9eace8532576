//! The StarkEx feed: price updates that carry the oracles' signatures.

use super::model::RelayView;
use super::PragmaWsClient;
use crate::config::Config;
use crate::text::join;
use vstd::prelude::*;

verus! {

/// The messages of the StarkEx feed.
#[derive(Debug, Clone, PartialEq, Eq)]
pub enum StarkexMessage {
    Subscribe { msg_type: String, pairs: Vec<String> },
    Unsubscribe { msg_type: String, pairs: Vec<String> },
    PriceUpdate { oracle_prices: Vec<PriceUpdate>, timestamp: i64 },
}

/// The price of one asset with the signatures that vouch for it.
#[derive(Debug, Clone, PartialEq, Eq)]
pub struct PriceUpdate {
    /// The identifier of the asset.
    pub global_asset_id: String,
    /// The median price, as text.
    pub median_price: String,
    /// The signature over the update.
    pub signature: String,
    /// The prices that the oracles signed.
    pub signed_prices: Vec<SignedPrice>,
}

/// The price that one oracle signed.
#[derive(Debug, Clone, PartialEq, Eq)]
pub struct SignedPrice {
    /// The oracle's identifier of the asset.
    pub oracle_asset_id: String,
    /// The price that the oracle reported, as text.
    pub oracle_price: String,
    /// The public key that signed.
    pub signing_key: String,
    /// When the price was taken.
    pub timestamp: i64,
    /// The signature over the price.
    pub signature: String,
}

/// What `text` holds as JSON where it is one JSON string, white space
/// around it allowed: the content of that string. Any other text holds
/// nothing.
pub uninterp spec fn json_string(text: Seq<char>) -> Option<Seq<char>>;

/// `serde_json::from_str::<String>`: reads `text` as one JSON string and
/// returns its content, or nothing where `text` is not one JSON string.
/// What it returns depends on `text` alone.
#[verifier::external_body]
fn read_json_string(text: &str) -> (r: Option<String>)
    ensures
        match r {
            Some(content) => json_string(text@) == Some(content@),
            None => json_string(text@) is None,
        },
{
    serde_json::from_str::<String>(text).ok()
}

/// Decodes what the envelope of a frame held: nothing where there was no
/// envelope, and otherwise what `decode_payload` makes of its content.
pub fn decode_payload_of<F: Fn(String) -> Option<StarkexMessage>>(
    envelope: Option<String>,
    decode_payload: &F,
) -> (r: Option<StarkexMessage>)
    requires
        forall|payload: String| call_requires(*decode_payload, (payload,)),
    ensures
        match envelope {
            Some(payload) => call_ensures(*decode_payload, (payload,), r),
            None => r is None,
        },
{
    match envelope {
        Some(payload) => decode_payload(payload),
        None => None,
    }
}

/// Decodes a frame of the StarkEx feed. The feed sends each message
/// wrapped in a JSON string: the frame is opened, and `decode_payload`
/// decodes what it holds. A frame that is no JSON string decodes to
/// nothing.
pub fn decode_frame<F: Fn(String) -> Option<StarkexMessage>>(
    text: String,
    decode_payload: &F,
) -> (r: Option<StarkexMessage>)
    requires
        forall|payload: String| call_requires(*decode_payload, (payload,)),
    ensures
        match json_string(text@) {
            Some(content) => exists|payload: String|
                payload@ == content && call_ensures(*decode_payload, (payload,), r),
            None => r is None,
        },
{
    let envelope = read_json_string(text.as_str());
    decode_payload_of(envelope, decode_payload)
}

/// The address of the StarkEx feed.
pub fn starkex_ws_url(config: &Config) -> (url: String)
    ensures
        url@ == config@.ws_url + "/node/v1/data/subscribe"@,
{
    join(config.ws_url(), "/node/v1/data/subscribe")
}

/// Creates a client for the StarkEx feed of the configured deployment,
/// with the configured API key. `message_handler` decodes the frames.
pub fn starkex_ws_client<D: Fn(String) -> Option<StarkexMessage>>(
    config: &Config,
    message_handler: D,
) -> (client: PragmaWsClient<StarkexMessage, D>)
    requires
        forall|text: String| call_requires(message_handler, (text,)),
    ensures
        client.wf(),
        client@ == RelayView::<StarkexMessage>::init(
            config@.ws_url + "/node/v1/data/subscribe"@,
            config@.api_key,
            |text: String, decoded: Option<StarkexMessage>|
                call_ensures(message_handler, (text,), decoded),
        ),
{
    PragmaWsClient::new(starkex_ws_url(config), config.api_key().to_owned(), message_handler)
}

} // verus!
