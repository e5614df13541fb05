use edgex_hft::strategy::HighFrequencyStrategy;
use edgex_hft::types::Config;
use edgex_hft::types::PriceData;
use edgex_hft::types::TradeDirection;

fn test_config() -> Config {
    Config {
        api_key: "key".to_string(),
        secret_key: "secret".to_string(),
        initial_balance: 1_000_000,
        target_volatility: 5_000,
        base_position_size: 1_000,
        max_trades_per_day: 200,
        min_trade_interval: 5,
        max_trade_interval: 60,
        stop_loss_pct: 2_000,
        take_profit_pct: 2_000,
        symbols: vec!["BTCUSDT".to_string()],
        timeframe: "1m".to_string(),
    }
}

fn bar(close: u64) -> PriceData {
    PriceData { timestamp: 0, open: close, high: close, low: close, close, volume: 1 }
}

fn bars(closes: &[u64]) -> Vec<PriceData> {
    closes.iter().map(|&c| bar(c)).collect()
}

#[test]
fn short_window_holds_with_zero_confidence() {
    let s = HighFrequencyStrategy::new(test_config());
    for n in 0..20 {
        let window = bars(&vec![10_000; n]);
        let sig = s.generate_signal("BTCUSDT", &window);
        assert_eq!(sig.direction, TradeDirection::Hold);
        assert_eq!(sig.confidence, 0);
    }
}

#[test]
fn nineteen_bars_hold_twenty_can_signal() {
    let s = HighFrequencyStrategy::new(test_config());
    let mut closes = vec![10_000; 19];
    let sig = s.generate_signal("BTCUSDT", &bars(&closes));
    assert_eq!(sig.direction, TradeDirection::Hold);
    closes.push(10_500);
    let sig = s.generate_signal("BTCUSDT", &bars(&closes));
    assert_eq!(sig.direction, TradeDirection::Short);
}

#[test]
fn deviation_boundary_is_exact_on_the_upside() {
    let s = HighFrequencyStrategy::new(test_config());
    // Nineteen closes of 9999 and one of c: the sum S and last close c
    // satisfy 20000 * c == 1002 * S exactly at the threshold.
    // With closes summing to S = 189981 + c, the threshold deviation
    // 0.002 is hit exactly when 20000 * c == 1002 * (189981 + c), between
    // c = 10020 (inside the band) and c = 10021 (strictly over it).
    let mut closes = vec![9_999u64; 19];
    closes.push(10_020);
    let sig = s.generate_signal("BTCUSDT", &bars(&closes));
    assert_eq!(sig.direction, TradeDirection::Hold);
    let mut closes = vec![9_999u64; 19];
    closes.push(10_021);
    let sig = s.generate_signal("BTCUSDT", &bars(&closes));
    assert_eq!(sig.direction, TradeDirection::Short);
}

#[test]
fn deviation_boundary_is_exact_on_the_downside() {
    let s = HighFrequencyStrategy::new(test_config());
    // With nineteen closes of 10001, the -0.002 threshold is crossed
    // between c = 9980 (inside the band) and c = 9979 (strictly under).
    let mut closes = vec![10_001u64; 19];
    closes.push(9_980);
    let sig = s.generate_signal("BTCUSDT", &bars(&closes));
    assert_eq!(sig.direction, TradeDirection::Hold);
    let mut closes = vec![10_001u64; 19];
    closes.push(9_979);
    let sig = s.generate_signal("BTCUSDT", &bars(&closes));
    assert_eq!(sig.direction, TradeDirection::Long);
}

#[test]
fn short_scenario_at_quarter_percent_deviation() {
    // Prices in hundredths: a medium moving average of 100.00, a last
    // close of 100.25, a deviation of 0.0025 > 0.002: a short, with the
    // stop at 100.45 and the target at 100.05.
    let s = HighFrequencyStrategy::new(test_config());
    let mut closes = vec![9_999u64; 18];
    closes.push(9_993);
    closes.push(10_025);
    assert_eq!(closes.iter().sum::<u64>(), 200_000);
    let sig = s.generate_signal("BTCUSDT", &bars(&closes));
    assert_eq!(sig.direction, TradeDirection::Short);
    assert_eq!(sig.price, 10_025);
    assert_eq!(sig.confidence, 2_500);
    assert_eq!(sig.stop_loss, 10_045);
    assert_eq!(sig.take_profit, 10_005);
    assert_eq!(sig.symbol, "BTCUSDT");
}

#[test]
fn long_signal_sets_stop_below_and_target_above() {
    let s = HighFrequencyStrategy::new(test_config());
    let mut closes = vec![10_001u64; 19];
    closes.push(9_900);
    let sig = s.generate_signal("BTCUSDT", &bars(&closes));
    assert_eq!(sig.direction, TradeDirection::Long);
    assert_eq!(sig.price, 9_900);
    // 9900 * 2000 / 1000000 = 19.8, floored to 19.
    assert_eq!(sig.stop_loss, 9_900 - 19);
    assert_eq!(sig.take_profit, 9_900 + 19);
}

#[test]
fn moving_average_is_the_floored_mean_of_the_tail() {
    let s = HighFrequencyStrategy::new(test_config());
    let window = bars(&[1, 1, 10, 11, 13]);
    assert_eq!(s.calculate_moving_average(&window, 3), 11);
    assert_eq!(s.calculate_moving_average(&window, 5), 7);
    assert_eq!(s.calculate_moving_average(&window, 6), 0);
}

#[test]
fn flat_window_volatility_is_floored_at_one_percent() {
    let s = HighFrequencyStrategy::new(test_config());
    let window = bars(&vec![10_000; 30]);
    assert_eq!(s.calculate_volatility(&window), 10_000);
    let short = bars(&[10_000]);
    assert_eq!(s.calculate_volatility(&short), 10_000);
}

#[test]
fn position_size_scales_with_the_volatility_damper() {
    let s = HighFrequencyStrategy::new(test_config());
    // Balance 1_000_000, fraction 0.001, price 10_000. At the floored
    // volatility of 0.01 the damper is 0.2: 0.02 contracts.
    assert_eq!(s.calculate_position_size(10_000, 10_000), 20_000);
    // At or under the 0.002 target the damper is one: 0.1 contracts.
    assert_eq!(s.calculate_position_size(10_000, 2_000), 100_000);
    assert_eq!(s.calculate_position_size(10_000, 0), 100_000);
}
