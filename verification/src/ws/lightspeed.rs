//! The Lightspeed feed: frequent price updates without signatures.

use super::model::RelayView;
use super::PragmaWsClient;
use crate::config::Config;
use crate::text::join;
use vstd::prelude::*;

verus! {

/// The messages of the Lightspeed feed.
#[derive(Debug, Clone, PartialEq, Eq)]
pub enum LightspeedMessage {
    Subscribe { msg_type: String, pairs: Vec<String> },
    Unsubscribe { msg_type: String, pairs: Vec<String> },
    PriceUpdate { oracle_prices: Vec<PriceUpdate>, timestamp: u32 },
}

/// The price of one pair.
#[derive(Debug, Clone, PartialEq, Eq)]
pub struct PriceUpdate {
    /// The identifier of the pair.
    pub pair_id: String,
    /// The aggregated price, as text.
    pub price: String,
    /// The number of sources that were aggregated, as text.
    pub num_sources_aggregated: String,
}

/// The address of the Lightspeed feed.
pub fn lightspeed_ws_url(config: &Config) -> (url: String)
    ensures
        url@ == config@.ws_url + "/data/price/subscribe"@,
{
    join(config.ws_url(), "/data/price/subscribe")
}

/// Creates a client for the Lightspeed feed of the configured deployment,
/// with the configured API key. `message_handler` decodes the frames.
pub fn lightspeed_ws_client<D: Fn(String) -> Option<LightspeedMessage>>(
    config: &Config,
    message_handler: D,
) -> (client: PragmaWsClient<LightspeedMessage, D>)
    requires
        forall|text: String| call_requires(message_handler, (text,)),
    ensures
        client.wf(),
        client@ == RelayView::<LightspeedMessage>::init(
            config@.ws_url + "/data/price/subscribe"@,
            config@.api_key,
            |text: String, decoded: Option<LightspeedMessage>|
                call_ensures(message_handler, (text,), decoded),
        ),
{
    PragmaWsClient::new(lightspeed_ws_url(config), config.api_key().to_owned(), message_handler)
}

} // verus!
