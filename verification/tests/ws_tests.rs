use edgex_hft::strategy::HighFrequencyStrategy;
use edgex_hft::types::Config;
use edgex_hft::ws::market_topics_for;
use edgex_hft::ws::ping_frame;
use edgex_hft::ws::pong_frame;
use edgex_hft::ws::EdgeXWebSocketClient;
use edgex_hft::ws::RealTimePriceStream;
use edgex_hft::ws::WebSocketManager;

#[test]
fn the_stream_urls_follow_the_network_and_privacy_choice() {
    let pub_main = EdgeXWebSocketClient::new_public(false);
    assert_eq!(pub_main.base_url, "wss://quote.edgex.exchange/api/v1/public/ws");
    assert!(!pub_main.is_private);
    let pub_test = EdgeXWebSocketClient::new_public(true);
    assert_eq!(pub_test.base_url, "wss://quote-testnet.edgex.exchange/api/v1/public/ws");
    let priv_main = EdgeXWebSocketClient::new_private(12345, "stark".to_string(), false);
    assert_eq!(priv_main.base_url, "wss://quote.edgex.exchange/api/v1/private/ws");
    assert!(priv_main.is_private);
    assert_eq!(priv_main.account_id, Some(12345));
}

#[test]
fn connect_urls_carry_the_timestamp_and_account() {
    let public = EdgeXWebSocketClient::new_public(false);
    assert_eq!(
        public.connect_url(1_700_000_000_000).expect("a public URL"),
        "wss://quote.edgex.exchange/api/v1/public/ws?timestamp=1700000000000"
    );
    let private = EdgeXWebSocketClient::new_private(12345, "stark".to_string(), true);
    assert_eq!(
        private.connect_url(1_700_000_000_000).expect("a private URL"),
        "wss://quote-testnet.edgex.exchange/api/v1/private/ws?accountId=12345&timestamp=1700000000000"
    );
}

#[test]
fn the_auth_hash_exists_only_for_a_private_stream() {
    let public = EdgeXWebSocketClient::new_public(false);
    assert!(public.connect_auth_hash(1).is_err());
    let private = EdgeXWebSocketClient::new_private(12345, "stark".to_string(), false);
    let hash = private.connect_auth_hash(1_700_000_000_000).expect("a hash");
    assert_eq!(hash.len(), 32);
    // The hash covers the timestamp.
    let other = private.connect_auth_hash(1_700_000_000_001).expect("a hash");
    assert_ne!(hash, other);
}

#[test]
fn subscription_frames_are_exact_json_texts() {
    let c = EdgeXWebSocketClient::new_public(false);
    assert_eq!(
        c.subscribe_ticker("10000001").expect("a frame"),
        "{\"type\":\"subscribe\",\"channel\":\"ticker.10000001\"}"
    );
    assert_eq!(
        c.subscribe_depth("10000001", 15).expect("a frame"),
        "{\"type\":\"subscribe\",\"channel\":\"depth.10000001.15\"}"
    );
    assert_eq!(
        c.subscribe_kline("10000001", "LAST_PRICE", "MINUTE_1").expect("a frame"),
        "{\"type\":\"subscribe\",\"channel\":\"kline.LAST_PRICE.10000001.MINUTE_1\"}"
    );
    assert_eq!(
        c.subscribe_trades("10000001").expect("a frame"),
        "{\"type\":\"subscribe\",\"channel\":\"trades.10000001\"}"
    );
    assert_eq!(
        c.subscribe_metadata().expect("a frame"),
        "{\"type\":\"subscribe\",\"channel\":\"metadata\"}"
    );
    assert_eq!(
        c.unsubscribe("ticker.10000001").expect("a frame"),
        "{\"type\":\"unsubscribe\",\"channel\":\"ticker.10000001\"}"
    );
}

#[test]
fn the_private_stream_takes_no_subscriptions() {
    let c = EdgeXWebSocketClient::new_private(1, "k".to_string(), false);
    assert!(c.subscribe_ticker("10000001").is_err());
    assert!(c.subscribe_metadata().is_err());
    assert!(c.unsubscribe("ticker.1").is_err());
}

#[test]
fn an_unsafe_contract_id_is_rejected() {
    let c = EdgeXWebSocketClient::new_public(false);
    assert!(c.subscribe_ticker("100\"1").is_err());
}

#[test]
fn heartbeat_frames_are_exact_json_texts() {
    assert_eq!(
        pong_frame("1700000000000"),
        "{\"type\":\"pong\",\"time\":\"1700000000000\"}"
    );
    assert_eq!(ping_frame(42), "{\"type\":\"ping\",\"time\":\"42\"}");
}

#[test]
fn one_contract_subscribes_four_market_channels() {
    let topics = market_topics_for("10000001");
    assert_eq!(
        topics,
        vec![
            "ticker.10000001".to_string(),
            "depth.10000001.15".to_string(),
            "kline.LAST_PRICE.10000001.MINUTE_1".to_string(),
            "trades.10000001".to_string(),
        ]
    );
}

#[test]
fn streams_hold_their_contracts() {
    let s = RealTimePriceStream::new_public(true, vec!["10000001".to_string()]);
    assert!(!s.ws_client.is_private);
    assert_eq!(s.contract_ids, vec!["10000001".to_string()]);
    let p = RealTimePriceStream::new_private(7, "stark".to_string(), true);
    assert!(p.ws_client.is_private);
    assert_eq!(p.ws_client.stark_private_key.as_deref(), Some("stark"));
    assert_eq!(
        p.ws_client.base_url,
        "wss://quote-testnet.edgex.exchange/api/v1/private/ws"
    );
    assert!(p.contract_ids.is_empty());
}

#[test]
fn the_manager_collects_contracts_and_endpoints() {
    let mut m = WebSocketManager::new(true);
    let public = m.public_client.as_ref().expect("a public endpoint");
    assert!(!public.is_private);
    assert_eq!(
        public.base_url,
        "wss://quote-testnet.edgex.exchange/api/v1/public/ws"
    );
    assert!(m.private_client.is_none());
    m.add_contracts(vec!["10000001".to_string(), "10000002".to_string()]);
    m.add_contracts(vec!["10000003".to_string()]);
    assert_eq!(m.contract_ids.len(), 3);
    m.with_private(12345, "stark".to_string(), true);
    let private = m.private_client.as_ref().expect("a private endpoint");
    assert!(private.is_private);
    assert_eq!(private.account_id, Some(12345));
    assert_eq!(private.stark_private_key.as_deref(), Some("stark"));
    assert_eq!(
        private.base_url,
        "wss://quote-testnet.edgex.exchange/api/v1/private/ws"
    );
}

#[test]
fn the_report_snapshot_is_exact() {
    let config = Config {
        api_key: "k".to_string(),
        secret_key: "s".to_string(),
        initial_balance: 100,
        target_volatility: 5_000,
        base_position_size: 1_000,
        max_trades_per_day: 200,
        min_trade_interval: 5,
        max_trade_interval: 60,
        stop_loss_pct: 2_000,
        take_profit_pct: 2_000,
        symbols: vec!["BTCUSDT".to_string()],
        timeframe: "1m".to_string(),
    };
    let s = HighFrequencyStrategy::new(config);
    let r = s.performance_report(1_000_000);
    assert_eq!(r.timestamp, 1_000_000);
    assert_eq!(r.portfolio_value, 100);
    assert_eq!(r.current_volatility, 0);
    assert_eq!(r.target_volatility, 5_000);
    assert_eq!(r.daily_volume, 0);
    assert_eq!(r.volume_target, 10_000_000_000);
    assert_eq!(r.today_trades, 0);
    assert_eq!(r.today_pnl, 0);
    assert_eq!(r.trading_interval, 5);
}
