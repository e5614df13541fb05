use edgex_hft::strategy::HighFrequencyStrategy;
use edgex_hft::trade::CycleGate;
use edgex_hft::types::Config;
use edgex_hft::types::OrderSide;
use edgex_hft::types::OrderType;
use edgex_hft::types::PriceData;
use edgex_hft::types::TradeDirection;

fn test_config() -> Config {
    Config {
        api_key: "key".to_string(),
        secret_key: "secret".to_string(),
        initial_balance: 1_000_000,
        target_volatility: 5_000,
        base_position_size: 1_000,
        max_trades_per_day: 200,
        min_trade_interval: 5,
        max_trade_interval: 60,
        stop_loss_pct: 2_000,
        take_profit_pct: 2_000,
        symbols: vec!["BTCUSDT".to_string()],
        timeframe: "1m".to_string(),
    }
}

fn bars(closes: &[u64]) -> Vec<PriceData> {
    closes
        .iter()
        .map(|&c| PriceData { timestamp: 0, open: c, high: c, low: c, close: c, volume: 1 })
        .collect()
}

fn short_window() -> Vec<PriceData> {
    let mut closes = vec![9_999u64; 18];
    closes.push(9_993);
    closes.push(10_025);
    bars(&closes)
}

#[test]
fn an_entry_and_its_exit_round_trip_the_position() {
    // One accepted entry yields exactly one position; its exit yields
    // exactly one trade record and no residual position for the symbol.
    let mut s = HighFrequencyStrategy::new(test_config());
    let window = short_window();
    let (signal, order) = s.prepare_entry("BTCUSDT", &window).expect("a short entry");
    assert_eq!(signal.direction, TradeDirection::Short);
    assert_eq!(order.side, OrderSide::Sell);
    assert_eq!(order.order_type, OrderType::Market);
    assert_eq!(order.leverage, 50);
    let volatility = s.calculate_volatility(&window);
    assert_eq!(order.quantity, s.calculate_position_size(10_025, volatility));

    s.record_entry(&signal, order.quantity, 1_000);
    assert_eq!(s.positions.len(), 1);
    assert_eq!(s.positions[0].symbol, "BTCUSDT");
    assert_eq!(s.positions[0].entry_price, 10_025);
    assert_eq!(s.trade_count, 0);

    // A second entry for the same symbol is rejected while one is open.
    assert!(s.prepare_entry("BTCUSDT", &window).is_none());

    let exit = s.plan_exit("BTCUSDT").expect("an open position to close");
    assert_eq!(exit.side, OrderSide::Buy);
    assert_eq!(exit.quantity, order.quantity);

    let rec = s.record_exit("BTCUSDT", 10_000, 1_003).expect("a record");
    assert_eq!(s.positions.len(), 0);
    assert_eq!(s.trade_records.len(), 1);
    assert_eq!(s.trade_count, 1);
    assert_eq!(rec.symbol, "BTCUSDT");
    assert_eq!(rec.entry_price, 10_025);
    assert_eq!(rec.exit_price, 10_000);
    assert_eq!(rec.duration, 3);
    // A short gains as the price falls: (entry - exit) * size.
    assert_eq!(rec.pnl, 25 * order.quantity as i128);
}

#[test]
fn exit_without_a_position_changes_nothing() {
    let mut s = HighFrequencyStrategy::new(test_config());
    assert!(s.record_exit("BTCUSDT", 10_000, 1_000).is_none());
    assert_eq!(s.trade_records.len(), 0);
    assert_eq!(s.trade_count, 0);
    assert!(s.plan_exit("BTCUSDT").is_none());
}

#[test]
fn a_hold_window_plans_no_entry() {
    let s = HighFrequencyStrategy::new(test_config());
    let window = bars(&vec![10_000; 30]);
    assert!(s.prepare_entry("BTCUSDT", &window).is_none());
    let empty = bars(&[]);
    assert!(s.prepare_entry("BTCUSDT", &empty).is_none());
}

#[test]
fn a_long_exit_gains_as_the_price_rises() {
    let mut s = HighFrequencyStrategy::new(test_config());
    let mut closes = vec![10_001u64; 19];
    closes.push(9_900);
    let window = bars(&closes);
    let (signal, order) = s.prepare_entry("BTCUSDT", &window).expect("a long entry");
    assert_eq!(signal.direction, TradeDirection::Long);
    assert_eq!(order.side, OrderSide::Buy);
    s.record_entry(&signal, order.quantity, 2_000);
    let rec = s.record_exit("BTCUSDT", 9_950, 2_005).expect("a record");
    assert_eq!(rec.pnl, 50 * order.quantity as i128);
    assert_eq!(rec.duration, 5);
}

#[test]
fn positions_in_other_symbols_are_untouched() {
    let mut s = HighFrequencyStrategy::new(test_config());
    let window = short_window();
    let (sig_a, order_a) = s.prepare_entry("BTCUSDT", &window).expect("entry a");
    s.record_entry(&sig_a, order_a.quantity, 1_000);
    let (sig_b, order_b) = s.prepare_entry("ETHUSDT", &window).expect("entry b");
    s.record_entry(&sig_b, order_b.quantity, 1_001);
    assert_eq!(s.positions.len(), 2);
    let _ = s.record_exit("BTCUSDT", 10_000, 1_002).expect("a record");
    assert_eq!(s.positions.len(), 1);
    assert_eq!(s.positions[0].symbol, "ETHUSDT");
    assert!(s.plan_exit("ETHUSDT").is_some());
}

#[test]
fn the_daily_cap_gates_the_cycle() {
    let mut s = HighFrequencyStrategy::new(test_config());
    assert_eq!(s.next_cycle_gate(), CycleGate::Proceed);
    s.config.max_trades_per_day = 0;
    assert_eq!(s.next_cycle_gate(), CycleGate::PauseDailyLimit);
}

#[test]
fn the_volatility_breaker_outranks_the_daily_cap() {
    let mut s = HighFrequencyStrategy::new(test_config());
    for i in 0..25 {
        s.refresh_account(if i % 2 == 0 { 2_000_000 } else { 1_000_000 });
    }
    assert_eq!(s.next_cycle_gate(), CycleGate::PauseVolatility);
    s.config.max_trades_per_day = 0;
    assert_eq!(s.next_cycle_gate(), CycleGate::PauseVolatility);
}
