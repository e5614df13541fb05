use edgex_hft::num::isqrt_u128;
use edgex_hft::strategy::HighFrequencyStrategy;
use edgex_hft::types::Config;
use edgex_hft::types::TradeDirection;
use edgex_hft::types::TradeRecord;

fn test_config() -> Config {
    Config {
        api_key: "key".to_string(),
        secret_key: "secret".to_string(),
        initial_balance: 1_000_000,
        target_volatility: 5_000,
        base_position_size: 1_000,
        max_trades_per_day: 200,
        min_trade_interval: 5,
        max_trade_interval: 60,
        stop_loss_pct: 2_000,
        take_profit_pct: 2_000,
        symbols: vec!["BTCUSDT".to_string()],
        timeframe: "1m".to_string(),
    }
}

#[test]
fn integer_square_roots_are_floors() {
    assert_eq!(isqrt_u128(0), 0);
    assert_eq!(isqrt_u128(1), 1);
    assert_eq!(isqrt_u128(3), 1);
    assert_eq!(isqrt_u128(4), 2);
    assert_eq!(isqrt_u128(15), 3);
    assert_eq!(isqrt_u128(16), 4);
    assert_eq!(isqrt_u128(1_000_000), 1_000);
    assert_eq!(isqrt_u128(u128::MAX), u64::MAX);
    assert_eq!(isqrt_u128((u64::MAX as u128) * (u64::MAX as u128)), u64::MAX);
}

#[test]
fn the_standard_deviation_of_known_returns_is_exact() {
    let s = HighFrequencyStrategy::new(test_config());
    // Returns 1000 and 3000 ppm: mean 2000, deviations of 1000 each,
    // variance 1000000, standard deviation exactly 1000 ppm.
    assert_eq!(s.calculate_standard_deviation(&vec![1_000, 3_000]), 1_000);
    // All equal: zero spread.
    assert_eq!(s.calculate_standard_deviation(&vec![500, 500, 500]), 0);
}

#[test]
fn the_daily_pnl_counts_only_the_trailing_day() {
    let now: i64 = 1_000_000;
    let mut s = HighFrequencyStrategy::new(test_config());
    let mut record = |pnl: i128, ts: i64| TradeRecord {
        symbol: "BTCUSDT".to_string(),
        direction: TradeDirection::Long,
        size: 1,
        entry_price: 100,
        exit_price: 100,
        pnl,
        timestamp: ts,
        duration: 1,
    };
    s.trade_records.push(record(250, now - 10));
    s.trade_records.push(record(-100, now - 86_399));
    s.trade_records.push(record(10_000, now - 86_400));
    s.trade_count = 3;
    assert_eq!(s.today_pnl(now), 150);
}
