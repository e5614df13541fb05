//! Core data model: candles, signals, positions, trade records and the
//! strategy configuration.
//!
//! Prices, balances and volumes are fixed-point integers in an
//! exchange-chosen unit (for example cents); the unit never appears in the
//! logic, only the bound `AMOUNT_MAX` does. Dimensionless ratios (deviation
//! thresholds, volatility, position fractions) are carried in parts per
//! million, scale `PPM_SCALE`. Position sizes are carried in millionths of
//! one contract, scale `SIZE_SCALE`.
use vstd::prelude::*;

verus! {

/// One million: the fixed-point scale for dimensionless ratios.
pub const PPM_SCALE: u64 = 1_000_000;

/// Largest admissible price, balance or equity sample, in price units.
/// Keeps every intermediate product of the volatility and sizing
/// arithmetic inside `u128`.
pub const AMOUNT_MAX: u64 = 100_000_000_000;

/// Position sizes are in millionths of one contract.
pub const SIZE_SCALE: u64 = 1_000_000;

/// Largest admissible position size: `AMOUNT_MAX * PPM_SCALE / 1`,
/// the most `calculate_position_size` can ever return.
pub const SIZE_MAX: u64 = 100_000_000_000_000_000;

/// Moving-average deviation that triggers a signal: 0.002 in ppm.
pub const TARGET_DEVIATION_PPM: u64 = 2_000;

/// Floor applied to candle volatility when sizing: 0.01 in ppm.
pub const VOLATILITY_FLOOR_PPM: u64 = 10_000;

/// Annualization factor for per-period variance: trading days per year.
pub const ANNUALIZATION: u64 = 252;

/// Bars required before a signal may be generated.
pub const MIN_SIGNAL_BARS: usize = 20;

/// Bars in the short moving average.
pub const SHORT_MA_PERIOD: usize = 5;

/// Bars in the medium moving average.
pub const MEDIUM_MA_PERIOD: usize = 20;

/// Equity samples required before volatility is defined.
pub const MIN_VOLATILITY_SAMPLES: usize = 20;

/// Capacity of the equity-history ring.
pub const EQUITY_CAPACITY: usize = 100;

/// Seconds in the trailing window that counts as "today".
pub const DAY_SECONDS: i64 = 86_400;

#[derive(Debug, Clone, Copy, PartialEq, Eq, Structural)]
pub enum TradeDirection {
    Long,
    Short,
    Hold,
}

#[derive(Debug, Clone, Copy, PartialEq, Eq, Structural)]
pub enum OrderSide {
    Buy,
    Sell,
}

#[derive(Debug, Clone, Copy, PartialEq, Eq, Structural)]
pub enum OrderType {
    Market,
    Limit,
}

/// One OHLCV bar. Prices and volume are fixed-point price units.
#[derive(Debug, Clone)]
pub struct PriceData {
    pub timestamp: i64,
    pub open: u64,
    pub high: u64,
    pub low: u64,
    pub close: u64,
    pub volume: u64,
}

impl PriceData {
    /// A bar the fixed-point arithmetic can accept: a positive close
    /// within range.
    pub open spec fn wf(&self) -> bool {
        1 <= self.close <= AMOUNT_MAX
    }
}

/// Every bar of a window is well formed.
pub open spec fn bars_wf(bars: Seq<PriceData>) -> bool {
    forall|i: int| 0 <= i < bars.len() ==> #[trigger] bars[i].wf()
}

/// A directional recommendation derived from moving-average deviation.
/// `confidence` is the absolute deviation in ppm.
#[derive(Debug, Clone)]
pub struct TradeSignal {
    pub symbol: String,
    pub direction: TradeDirection,
    pub confidence: u64,
    pub price: u64,
    pub stop_loss: u64,
    pub take_profit: u64,
}

/// An open, unrealized exposure in one symbol. `size` is in size units.
#[derive(Debug, Clone)]
pub struct Position {
    pub symbol: String,
    pub direction: TradeDirection,
    pub size: u64,
    pub entry_price: u64,
    pub stop_loss: u64,
    pub take_profit: u64,
    pub leverage: u32,
    pub opening_time: i64,
}

impl Position {
    pub open spec fn wf(&self) -> bool {
        &&& self.size <= SIZE_MAX
        &&& 1 <= self.entry_price <= AMOUNT_MAX
    }
}

/// A closed, realized trade. `pnl` is exact, in price units times size
/// units: divide by `SIZE_SCALE` for price units.
#[derive(Debug, Clone)]
pub struct TradeRecord {
    pub symbol: String,
    pub direction: TradeDirection,
    pub size: u64,
    pub entry_price: u64,
    pub exit_price: u64,
    pub pnl: i128,
    pub timestamp: i64,
    pub duration: u64,
}

impl TradeRecord {
    pub open spec fn wf(&self) -> bool {
        &&& self.size <= SIZE_MAX
        &&& 1 <= self.entry_price <= AMOUNT_MAX
        &&& 1 <= self.exit_price <= AMOUNT_MAX
        &&& -10_000_000_000_000_000_000_000_000_000 <= self.pnl
            <= 10_000_000_000_000_000_000_000_000_000
    }
}

/// Signed profit of a closed trade: `(exit - entry) * size` for longs,
/// `(entry - exit) * size` for shorts, zero for a hold.
pub open spec fn spec_pnl(direction: TradeDirection, entry: int, exit: int, size: int) -> int {
    match direction {
        TradeDirection::Long => (exit - entry) * size,
        TradeDirection::Short => (entry - exit) * size,
        TradeDirection::Hold => 0,
    }
}

/// A request handed to the execution gateway. `quantity` is in size units.
#[derive(Debug, Clone)]
pub struct Order {
    pub symbol: String,
    pub side: OrderSide,
    pub order_type: OrderType,
    pub quantity: u64,
    pub price: Option<u64>,
    pub leverage: u32,
}

/// Account snapshot returned by the execution gateway.
#[derive(Debug, Clone)]
pub struct AccountInfo {
    pub balance: u64,
    pub available_balance: u64,
    pub positions: Vec<Position>,
}

/// Strategy configuration. Percentages are in ppm; intervals in seconds.
#[derive(Debug, Clone)]
pub struct Config {
    pub api_key: String,
    pub secret_key: String,
    pub initial_balance: u64,
    pub target_volatility: u64,
    pub base_position_size: u64,
    pub max_trades_per_day: u32,
    pub min_trade_interval: u64,
    pub max_trade_interval: u64,
    pub stop_loss_pct: u64,
    pub take_profit_pct: u64,
    pub symbols: Vec<String>,
    pub timeframe: String,
}

impl Config {
    /// Ranges the fixed-point arithmetic needs: a positive bounded
    /// balance, a positive volatility target, fractions of at most one,
    /// and an ordered pair of interval bounds.
    pub open spec fn wf(&self) -> bool {
        &&& 1 <= self.initial_balance <= AMOUNT_MAX
        &&& 1 <= self.target_volatility
        &&& self.base_position_size <= PPM_SCALE
        &&& self.stop_loss_pct <= PPM_SCALE
        &&& self.take_profit_pct <= PPM_SCALE
        &&& 1 <= self.min_trade_interval <= self.max_trade_interval
    }
}

} // verus!
