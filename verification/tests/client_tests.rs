use edgex_hft::client::klines_endpoint;
use edgex_hft::client::leverage_body_json;
use edgex_hft::client::order_body_json;
use edgex_hft::client::quantity_text;
use edgex_hft::client::EdgeXClient;
use edgex_hft::sign::u64_to_string;
use edgex_hft::types::Order;
use edgex_hft::types::OrderSide;
use edgex_hft::types::OrderType;

#[test]
fn decimal_rendering_is_exact() {
    assert_eq!(u64_to_string(0), "0");
    assert_eq!(u64_to_string(7), "7");
    assert_eq!(u64_to_string(10), "10");
    assert_eq!(u64_to_string(1_002), "1002");
    assert_eq!(u64_to_string(u64::MAX), "18446744073709551615");
}

#[test]
fn quantities_carry_six_zero_padded_decimals() {
    assert_eq!(quantity_text(0), "0.000000");
    assert_eq!(quantity_text(250), "0.000250");
    assert_eq!(quantity_text(1_500_000), "1.500000");
    assert_eq!(quantity_text(20_000), "0.020000");
    assert_eq!(quantity_text(123_456_789), "123.456789");
}

#[test]
fn the_base_url_follows_the_network_choice() {
    let prod = EdgeXClient::new("k".to_string(), "s".to_string(), false);
    assert_eq!(prod.base_url, "https://api.edgex.com");
    let test = EdgeXClient::new("k".to_string(), "s".to_string(), true);
    assert_eq!(test.base_url, "https://testnet.edgex.com");
}

#[test]
fn signatures_are_deterministic_hex_of_the_digest() {
    let c = EdgeXClient::new("k".to_string(), "secret".to_string(), false);
    let a = c.sign_account_request(1_700_000_000_000);
    let b = c.generate_signature(1_700_000_000_000, "GET", "/api/v1/account", "");
    assert_eq!(a, b);
    assert_eq!(a.len(), 64);
    assert!(a.chars().all(|ch| ch.is_ascii_hexdigit() && !ch.is_ascii_uppercase()));
    // The signature covers the body: a different body signs differently.
    let with_body = c.generate_signature(1_700_000_000_000, "GET", "/api/v1/account", "x");
    assert_ne!(a, with_body);
    // The signature covers the timestamp and the secret as well.
    let later = c.generate_signature(1_700_000_000_001, "GET", "/api/v1/account", "");
    assert_ne!(a, later);
    let other = EdgeXClient::new("k".to_string(), "other".to_string(), false);
    assert_ne!(a, other.sign_account_request(1_700_000_000_000));
}

#[test]
fn the_order_body_is_deterministic_json() {
    let order = Order {
        symbol: "BTCUSDT".to_string(),
        side: OrderSide::Buy,
        order_type: OrderType::Market,
        quantity: 1_000,
        price: None,
        leverage: 50,
    };
    let body = order_body_json(&order).expect("a JSON-safe symbol");
    assert_eq!(
        body,
        "{\"leverage\":\"50\",\"quantity\":\"0.001000\",\"side\":\"BUY\",\"symbol\":\"BTCUSDT\",\"type\":\"MARKET\"}"
    );
}

#[test]
fn a_priced_order_carries_its_price_field() {
    let order = Order {
        symbol: "ETHUSDT".to_string(),
        side: OrderSide::Sell,
        order_type: OrderType::Limit,
        quantity: 2_500_000,
        price: Some(10_025),
        leverage: 20,
    };
    let body = order_body_json(&order).expect("a JSON-safe symbol");
    assert_eq!(
        body,
        "{\"leverage\":\"20\",\"price\":\"10025\",\"quantity\":\"2.500000\",\"side\":\"SELL\",\"symbol\":\"ETHUSDT\",\"type\":\"LIMIT\"}"
    );
}

#[test]
fn an_unsafe_symbol_is_rejected_not_escaped() {
    let order = Order {
        symbol: "BTC\"USDT".to_string(),
        side: OrderSide::Buy,
        order_type: OrderType::Market,
        quantity: 1,
        price: None,
        leverage: 1,
    };
    assert!(order_body_json(&order).is_err());
    assert!(leverage_body_json("a\\b", 10).is_err());
}

#[test]
fn the_leverage_body_is_deterministic_json() {
    let body = leverage_body_json("BTCUSDT", 50).expect("a JSON-safe symbol");
    assert_eq!(body, "{\"leverage\":\"50\",\"symbol\":\"BTCUSDT\"}");
}

#[test]
fn the_klines_endpoint_carries_its_query() {
    assert_eq!(
        klines_endpoint("BTCUSDT", "1m", 30),
        "/api/v1/klines?symbol=BTCUSDT&interval=1m&limit=30"
    );
}
