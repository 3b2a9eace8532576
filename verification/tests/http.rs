use pragma_sdk::http::health_url;
use pragma_sdk::http::offchain::funding_rates::{
    funding_rates_query, funding_rates_url, historical_funding_rates_query,
    historical_funding_rates_url,
};
use pragma_sdk::http::offchain::get_entry::{entry_url, parse_hex_price, ScaledPrice};
use pragma_sdk::http::onchain::get_onchain_entry::onchain_entry_url;
use pragma_sdk::text::{bool_to_string, join, pair_url};
use pragma_sdk::{
    AggregationMode, EntryType, GetEntryParams, GetEntryResponse, GetOnchainEntryParams, Interval,
    Network,
};

fn response(price: &str, decimals: u32) -> GetEntryResponse {
    GetEntryResponse {
        decimals,
        num_sources_aggregated: 3,
        pair_id: "BTC/USD".to_string(),
        price: price.to_string(),
        timestamp: 1_700_000_000_000,
        components: None,
    }
}

#[test]
fn endpoint_addresses() {
    let base = "https://api.devnet.pragma.build";
    assert_eq!(health_url(base), "https://api.devnet.pragma.build/node");
    assert_eq!(
        entry_url(base, "BTC", "USD"),
        "https://api.devnet.pragma.build/node/v1/data/BTC/USD"
    );
    assert_eq!(
        funding_rates_url(base, "BTC", "USD"),
        "https://api.devnet.pragma.build/node/v1/funding_rates/BTC/USD"
    );
    assert_eq!(
        historical_funding_rates_url(base, "ETH", "USDT"),
        "https://api.devnet.pragma.build/node/v1/funding_rates/history/ETH/USDT"
    );
    assert_eq!(
        onchain_entry_url(base, "BTC", "USD"),
        "https://api.devnet.pragma.build/node/v1/onchain/BTC/USD"
    );
}

#[test]
fn text_helpers() {
    assert_eq!(pair_url("a", "/b/", "c", "d"), "a/b/c/d");
    assert_eq!(pair_url("", "", "", ""), "/");
    assert_eq!(join("left", "right"), "leftright");
    assert_eq!(bool_to_string(true), "true");
    assert_eq!(bool_to_string(false), "false");
}

#[test]
fn empty_entry_params_give_an_empty_query() {
    assert_eq!(GetEntryParams::default().to_query(), Vec::<(&str, String)>::new());
}

#[test]
fn full_entry_params_give_every_pair_in_order() {
    let params = GetEntryParams {
        timestamp: Some(1_746_448_809),
        interval: Some(Interval::OneHour),
        routing: Some(true),
        aggregation: Some(AggregationMode::Median),
        entry_type: Some(EntryType::Perp),
        with_components: Some(false),
    };
    assert_eq!(
        params.to_query(),
        vec![
            ("timestamp", "1746448809".to_string()),
            ("interval", "1h".to_string()),
            ("routing", "true".to_string()),
            ("aggregation", "median".to_string()),
            ("entry_type", "perp".to_string()),
            ("with_components", "false".to_string()),
        ]
    );
}

#[test]
fn partial_entry_params_skip_what_is_not_set() {
    let params = GetEntryParams {
        interval: Some(Interval::OneHundredMillisecond),
        with_components: Some(true),
        ..Default::default()
    };
    assert_eq!(
        params.to_query(),
        vec![("interval", "100ms".to_string()), ("with_components", "true".to_string())]
    );
}

#[test]
fn timestamps_are_written_in_decimal() {
    for (ts, text) in [
        (0u64, "0"),
        (7, "7"),
        (10, "10"),
        (1009, "1009"),
        (u64::MAX, "18446744073709551615"),
    ] {
        let params = GetEntryParams { timestamp: Some(ts), ..Default::default() };
        assert_eq!(params.to_query(), vec![("timestamp", text.to_string())]);
    }
}

#[test]
fn onchain_params_always_name_the_network() {
    assert_eq!(
        GetOnchainEntryParams::default().to_query(),
        vec![("network", "mainnet".to_string())]
    );
    let params = GetOnchainEntryParams {
        network: Network::Sepolia,
        aggregation: Some(AggregationMode::Twap),
        routing: Some(false),
        timestamp: Some(42),
        components: Some(true),
    };
    assert_eq!(
        params.to_query(),
        vec![
            ("network", "sepolia".to_string()),
            ("aggregation", "twap".to_string()),
            ("routing", "false".to_string()),
            ("timestamp", "42".to_string()),
            ("components", "true".to_string()),
        ]
    );
}

#[test]
fn funding_rates_queries() {
    assert_eq!(
        funding_rates_query("hyperliquid", None),
        vec![("source", "hyperliquid".to_string())]
    );
    assert_eq!(
        funding_rates_query("hyperliquid", Some(1_746_448_809)),
        vec![("source", "hyperliquid".to_string()), ("timestamp", "1746448809".to_string())]
    );
    assert_eq!(
        historical_funding_rates_query(1_746_448_809, 1_746_535_238, "hyperliquid"),
        vec![
            ("timestamp", "1746448809,1746535238".to_string()),
            ("source", "hyperliquid".to_string()),
        ]
    );
    assert_eq!(
        historical_funding_rates_query(0, u128::MAX, ""),
        vec![
            ("timestamp", "0,340282366920938463463374607431768211455".to_string()),
            ("source", String::new()),
        ]
    );
}

#[test]
fn hex_prices_are_read() {
    assert_eq!(response("0x1a", 8).price_u128().unwrap(), 26);
    assert_eq!(response("ff", 8).price_u128().unwrap(), 255);
    assert_eq!(response("0xFF", 8).price_u128().unwrap(), 255);
    assert_eq!(response("0x0", 8).price_u128().unwrap(), 0);
    assert_eq!(response("+10", 8).price_u128().unwrap(), 16);
    assert_eq!(response("0x000000000000000000000000000000000001", 8).price_u128().unwrap(), 1);
    assert_eq!(
        response("0xffffffffffffffffffffffffffffffff", 8).price_u128().unwrap(),
        u128::MAX
    );
    assert_eq!(response("0x2540be400", 8).price_u128().unwrap(), 10_000_000_000);
}

#[test]
fn every_marker_is_left_out() {
    assert_eq!(response("0x0x10", 0).price_u128().unwrap(), 16);
    assert_eq!(response("10x", 0).price_u128().unwrap(), 1);
    assert_eq!(response("1a0x2b", 0).price_u128().unwrap(), 0x1a2b);
}

#[test]
fn markers_are_left_out_in_one_pass() {
    // Leaving out the inner marker of "00xx1" gives "0x1", which is not
    // searched again.
    assert!(response("00xx1", 0).price_u128().is_err());
    assert!(response("0x0x0xx", 0).price_u128().is_err());
}

#[test]
fn malformed_hex_prices_are_rejected() {
    assert!(response("", 8).price_u128().is_err());
    assert!(response("0x", 8).price_u128().is_err());
    assert!(response("+", 8).price_u128().is_err());
    assert!(response("-1", 8).price_u128().is_err());
    assert!(response("0xg", 8).price_u128().is_err());
    assert!(response(" 1", 8).price_u128().is_err());
    assert!(response("1_0", 8).price_u128().is_err());
    assert!(response("0X10", 8).price_u128().is_err());
    assert!(response("0x100000000000000000000000000000000", 8).price_u128().is_err());
    assert!(parse_hex_price("xyz").is_err());
    assert_eq!(parse_hex_price("0xabc").unwrap(), 0xabc);
}

#[test]
fn scaled_price_pairs_digits_with_decimals() {
    assert_eq!(
        response("0x2540be400", 8).price_scaled().unwrap(),
        ScaledPrice { digits: 10_000_000_000, scale: 8 }
    );
    assert_eq!(response("7b", 0).price_scaled().unwrap(), ScaledPrice { digits: 123, scale: 0 });
    assert_eq!(
        response("1", u32::MAX).price_scaled().unwrap(),
        ScaledPrice { digits: 1, scale: 4_294_967_295 }
    );
    assert!(response("zz", 8).price_scaled().is_err());
}

#[test]
fn decimal_price_has_the_digits_and_the_decimal_places() {
    assert_eq!(response("0x2540be400", 8).price_bd().unwrap().to_string(), "100.00000000");
    assert_eq!(response("7b", 2).price_bd().unwrap().to_string(), "1.23");
    assert_eq!(response("7b", 0).price_bd().unwrap().to_string(), "123");
    let (zero, places) = response("0x0", 3).price_bd().unwrap().into_bigint_and_exponent();
    assert_eq!(zero.to_string(), "0");
    assert_eq!(places, 3);
    assert_eq!(
        response("0xffffffffffffffffffffffffffffffff", 0).price_bd().unwrap().to_string(),
        "340282366920938463463374607431768211455"
    );
    let (digits, scale) = response("0x1e240", 5).price_bd().unwrap().into_bigint_and_exponent();
    assert_eq!(digits.to_string(), "123456");
    assert_eq!(scale, 5);
    assert!(response("zz", 8).price_bd().is_err());
    assert!(response("", 8).price_bd().is_err());
}
