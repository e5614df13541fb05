//! The order lifecycle: cycle gating, entry planning and recording, exit
//! planning and recording.
//!
//! The gateway's acceptance of an order is the sole source of truth for a
//! position, so the functions here come in pairs: a read-only planner that
//! computes the order to submit, and a recorder the caller invokes only
//! after the gateway accepted it. A failed submission therefore leaves the
//! state exactly as it was. Recording an exit appends the trade record,
//! removes the position and bumps the trade counter in one call, so no
//! reader of the state can see one without the others.
use vstd::prelude::*;

use crate::signal::spec_candle_vol;
use crate::signal::spec_last_close;
use crate::signal::spec_position_size;
use crate::signal::spec_signal_direction;
use crate::strategy::has_position;
use crate::strategy::position_count;
use crate::strategy::position_index;
use crate::strategy::positions_unique;
use crate::strategy::HighFrequencyStrategy;
use crate::strings::str_eq;
use crate::types::bars_wf;
use crate::types::spec_pnl;
use crate::types::Order;
use crate::types::OrderSide;
use crate::types::OrderType;
use crate::types::Position;
use crate::types::PriceData;
use crate::types::TradeDirection;
use crate::types::TradeRecord;
use crate::types::TradeSignal;
use crate::types::AMOUNT_MAX;
use crate::types::MIN_SIGNAL_BARS;
use crate::types::SIZE_MAX;

verus! {

/// Seconds the volatility circuit breaker pauses new entries.
pub const VOLATILITY_COOLDOWN_SECS: u64 = 300;

/// Seconds the daily trade cap pauses new entries.
pub const DAILY_LIMIT_COOLDOWN_SECS: u64 = 3600;

/// Seconds an entry is held before the matching exit is submitted.
pub const HOLD_BEFORE_EXIT_SECS: u64 = 3;

/// Candles requested for each signal computation.
pub const KLINE_FETCH_LIMIT: u32 = 30;

/// Leverage applied to every entry.
pub const ENTRY_LEVERAGE: u32 = 50;

/// What the main loop must do before the next cycle.
#[derive(Debug, Clone, Copy, PartialEq, Eq, Structural)]
pub enum CycleGate {
    /// The volatility breaker tripped: pause all new entries for
    /// `VOLATILITY_COOLDOWN_SECS`.
    PauseVolatility,
    /// The daily trade cap is reached: pause for
    /// `DAILY_LIMIT_COOLDOWN_SECS`.
    PauseDailyLimit,
    /// Neither limit binds: run the trading cycle.
    Proceed,
}

/// The side that closes a position of the given direction. A hold never
/// opens a position; its arm exists only to make the match total.
pub open spec fn closing_side(direction: TradeDirection) -> OrderSide {
    match direction {
        TradeDirection::Long => OrderSide::Sell,
        TradeDirection::Short => OrderSide::Buy,
        TradeDirection::Hold => OrderSide::Buy,
    }
}

/// The side that opens a position of the given direction.
pub open spec fn opening_side(direction: TradeDirection) -> OrderSide {
    match direction {
        TradeDirection::Long => OrderSide::Buy,
        TradeDirection::Short => OrderSide::Sell,
        TradeDirection::Hold => OrderSide::Buy,
    }
}

/// Every open position for `symbol` is counted once by `position_count`;
/// none means `has_position` is false.
pub proof fn lemma_count_zero_iff_absent(ps: Seq<Position>, sym: Seq<char>)
    ensures
        (position_count(ps, sym) == 0) <==> !has_position(ps, sym),
        position_count(ps, sym) >= 0,
    decreases ps.len(),
{
    if ps.len() == 0 {
    } else {
        lemma_count_zero_iff_absent(ps.drop_last(), sym);
        if has_position(ps, sym) {
            let i = choose|i: int| 0 <= i < ps.len() && (#[trigger] ps[i].symbol@) == sym;
            if i < ps.len() - 1 {
                assert(ps.drop_last()[i].symbol@ == sym);
                assert(has_position(ps.drop_last(), sym));
            }
        } else {
            assert(!has_position(ps.drop_last(), sym)) by {
                if has_position(ps.drop_last(), sym) {
                    let i = choose|i: int|
                        0 <= i < ps.drop_last().len() && (#[trigger] ps.drop_last()[i].symbol@)
                            == sym;
                    assert(ps[i].symbol@ == sym);
                }
            }
        }
    }
}

/// Appending a position adds one to the count of its symbol and leaves
/// every other symbol's count unchanged.
pub proof fn lemma_count_push(ps: Seq<Position>, p: Position, sym: Seq<char>)
    ensures
        position_count(ps.push(p), sym) == position_count(ps, sym) + if p.symbol@ == sym {
            1int
        } else {
            0int
        },
{
    assert(ps.push(p).drop_last() =~= ps);
}

/// The round trip of one symbol's entry and exit. Entering a symbol that
/// has no open position leaves exactly one position for it, and the
/// position found for the symbol afterwards is the entered one itself.
/// Composed with `record_entry` (which pushes the position) and
/// `record_exit` (which appends one record drawn from the position at
/// `position_index` and removes it), this gives: every accepted entry
/// yields exactly one position; its exit appends exactly one trade record
/// carrying that position's symbol, direction, size and entry price, and
/// restores the position set exactly as it was, with no residual position
/// for the symbol.
pub proof fn lemma_entry_exit_round_trip(ps: Seq<Position>, p: Position)
    requires
        positions_unique(ps),
        !has_position(ps, p.symbol@),
    ensures
        position_count(ps.push(p), p.symbol@) == 1,
        has_position(ps.push(p), p.symbol@),
        position_index(ps.push(p), p.symbol@) == ps.len() as int,
        ps.push(p)[position_index(ps.push(p), p.symbol@)] == p,
        ps.push(p).remove(position_index(ps.push(p), p.symbol@)) == ps,
        !has_position(ps.push(p).remove(position_index(ps.push(p), p.symbol@)), p.symbol@),
        position_count(ps.push(p).remove(position_index(ps.push(p), p.symbol@)), p.symbol@)
            == 0,
{
    let sym = p.symbol@;
    let entered = ps.push(p);
    lemma_count_zero_iff_absent(ps, sym);
    lemma_count_push(ps, p, sym);
    assert(entered[ps.len() as int].symbol@ == sym);
    assert(has_position(entered, sym));
    let i = position_index(entered, sym);
    assert(0 <= i < entered.len() && entered[i].symbol@ == sym);
    if i < ps.len() {
        assert(ps[i].symbol@ == sym);
        assert(has_position(ps, sym));
    }
    assert(i == ps.len() as int);
    assert(entered.remove(i) =~= ps);
    lemma_count_zero_iff_absent(ps, sym);
}

impl HighFrequencyStrategy {
    /// Index of the open position for `symbol`, if any.
    pub fn find_position(&self, symbol: &str) -> (r: Option<usize>)
        requires
            self.wf(),
        ensures
            match r {
                Some(i) => i < self.positions@.len() && self.positions@[i as int].symbol@
                    == symbol@ && i as int == position_index(self.positions@, symbol@),
                None => !has_position(self.positions@, symbol@),
            },
    {
        let n = self.positions.len();
        let mut i: usize = 0;
        while i < n
            invariant
                0 <= i <= n,
                n == self.positions@.len(),
                self.wf(),
                forall|j: int| 0 <= j < i ==> (#[trigger] self.positions@[j].symbol@) != symbol@,
            decreases n - i,
        {
            if str_eq(self.positions[i].symbol.as_str(), symbol) {
                proof {
                    let k = position_index(self.positions@, symbol@);
                    assert(0 <= k < self.positions@.len() && self.positions@[k].symbol@
                        == symbol@);
                    if k != i as int {
                        assert(false);
                    }
                }
                return Some(i);
            }
            i = i + 1;
        }
        proof {
            if has_position(self.positions@, symbol@) {
                let k = choose|k: int|
                    0 <= k < self.positions@.len() && (#[trigger] self.positions@[k].symbol@)
                        == symbol@;
                assert(false);
            }
        }
        None
    }

    /// What the main loop must do now: pause on the volatility breaker,
    /// pause on the daily trade cap, or proceed with a trading cycle.
    /// The breaker takes precedence, as a risk valve must.
    pub fn next_cycle_gate(&self) -> (r: CycleGate)
        requires
            self.wf(),
        ensures
            (r == CycleGate::PauseVolatility) <==> self.spec_vol_breaker(),
            (r == CycleGate::PauseDailyLimit) <==> (!self.spec_vol_breaker()
                && self.trade_count >= self.config.max_trades_per_day),
            (r == CycleGate::Proceed) <==> (!self.spec_vol_breaker() && self.trade_count
                < self.config.max_trades_per_day),
    {
        if self.check_volatility_limits() {
            CycleGate::PauseVolatility
        } else if self.trade_count >= self.config.max_trades_per_day {
            CycleGate::PauseDailyLimit
        } else {
            CycleGate::Proceed
        }
    }

    /// Plan the entry for one symbol from its candle window: the signal
    /// and the market order to submit. Returns nothing when the window
    /// holds (too short or inside the deviation band) or when a position
    /// is already open for the symbol - no averaging, no pyramiding.
    pub fn prepare_entry(&self, symbol: &str, price_data: &Vec<PriceData>) -> (r: Option<
        (TradeSignal, Order),
    >)
        requires
            self.wf(),
            bars_wf(price_data@),
            price_data@.len() <= crate::num::MAX_STAT_SAMPLES,
        ensures
            r is None <==> (spec_signal_direction(price_data@) == TradeDirection::Hold
                || has_position(self.positions@, symbol@)),
            r matches Some((signal, order)) ==> {
                &&& signal.direction == spec_signal_direction(price_data@)
                &&& signal.direction != TradeDirection::Hold
                &&& !has_position(self.positions@, symbol@)
                &&& signal.symbol@ == symbol@
                &&& signal.price == spec_last_close(price_data@)
                &&& 1 <= signal.price <= AMOUNT_MAX
                &&& order.symbol@ == symbol@
                &&& order.side == opening_side(signal.direction)
                &&& order.order_type == OrderType::Market
                &&& order.quantity == spec_position_size(
                    self.balance as int,
                    self.config.base_position_size as int,
                    spec_last_close(price_data@),
                    spec_candle_vol(price_data@),
                )
                &&& order.quantity <= SIZE_MAX
                &&& order.price is None
                &&& order.leverage == ENTRY_LEVERAGE
            },
    {
        let signal = self.generate_signal(symbol, price_data);
        let is_hold = match signal.direction {
            TradeDirection::Hold => true,
            _ => false,
        };
        if is_hold {
            return None;
        }
        if self.find_position(symbol).is_some() {
            return None;
        }
        proof {
            assert(price_data@.len() >= MIN_SIGNAL_BARS);
            assert(price_data@[price_data@.len() - 1].wf());
        }
        let current_price = price_data[price_data.len() - 1].close;
        let volatility = self.calculate_volatility(price_data);
        let quantity = self.calculate_position_size(current_price, volatility);
        let side = match signal.direction {
            TradeDirection::Long => OrderSide::Buy,
            TradeDirection::Short => OrderSide::Sell,
            TradeDirection::Hold => OrderSide::Buy,
        };
        let order = Order {
            symbol: String::from_str(symbol),
            side,
            order_type: OrderType::Market,
            quantity,
            price: None,
            leverage: ENTRY_LEVERAGE,
        };
        Some((signal, order))
    }

    /// Record the position for an entry order the gateway accepted.
    /// Called only after acceptance: a rejected submission records
    /// nothing.
    pub fn record_entry(&mut self, signal: &TradeSignal, quantity: u64, now: i64)
        requires
            old(self).wf(),
            !has_position(old(self).positions@, signal.symbol@),
            1 <= signal.price <= AMOUNT_MAX,
            quantity <= SIZE_MAX,
        ensures
            final(self).wf(),
            final(self).positions@ == old(self).positions@.push(
                (Position {
                    symbol: signal.symbol,
                    direction: signal.direction,
                    size: quantity,
                    entry_price: signal.price,
                    stop_loss: signal.stop_loss,
                    take_profit: signal.take_profit,
                    leverage: ENTRY_LEVERAGE,
                    opening_time: now,
                }),
            ),
            has_position(final(self).positions@, signal.symbol@),
            final(self).config == old(self).config,
            final(self).balance == old(self).balance,
            final(self).equity_history == old(self).equity_history,
            final(self).trade_count == old(self).trade_count,
            final(self).trading_interval == old(self).trading_interval,
            final(self).trade_records == old(self).trade_records,
    {
        let position = Position {
            symbol: signal.symbol.clone(),
            direction: signal.direction,
            size: quantity,
            entry_price: signal.price,
            stop_loss: signal.stop_loss,
            take_profit: signal.take_profit,
            leverage: ENTRY_LEVERAGE,
            opening_time: now,
        };
        self.positions.push(position);
        proof {
            let ps = old(self).positions@;
            let sym = signal.symbol@;
            assert forall|i: int, j: int| 0 <= i < j < self.positions@.len() implies (
            #[trigger] self.positions@[i].symbol@) != (#[trigger] self.positions@[j].symbol@) by {
                if j == ps.len() {
                    assert(self.positions@[i] == ps[i]);
                    if ps[i].symbol@ == sym {
                        assert(has_position(ps, sym));
                    }
                } else {
                    assert(self.positions@[i] == ps[i]);
                    assert(self.positions@[j] == ps[j]);
                }
            }
            assert(self.positions@[ps.len() as int].symbol@ == sym);
        }
    }

    /// Plan the market order that closes the open position for `symbol`,
    /// if one exists: the opposite side, for the full recorded size.
    pub fn plan_exit(&self, symbol: &str) -> (r: Option<Order>)
        requires
            self.wf(),
        ensures
            r is None <==> !has_position(self.positions@, symbol@),
            r matches Some(order) ==> {
                let p = self.positions@[position_index(self.positions@, symbol@)];
                &&& has_position(self.positions@, symbol@)
                &&& order.symbol@ == symbol@
                &&& order.side == closing_side(p.direction)
                &&& order.order_type == OrderType::Market
                &&& order.quantity == p.size
                &&& order.price is None
                &&& order.leverage == p.leverage
            },
    {
        match self.find_position(symbol) {
            None => None,
            Some(i) => {
                let p = &self.positions[i];
                let side = match p.direction {
                    TradeDirection::Long => OrderSide::Sell,
                    TradeDirection::Short => OrderSide::Buy,
                    TradeDirection::Hold => OrderSide::Buy,
                };
                Some(
                    Order {
                        symbol: String::from_str(symbol),
                        side,
                        order_type: OrderType::Market,
                        quantity: p.size,
                        price: None,
                        leverage: p.leverage,
                    },
                )
            },
        }
    }

    /// Record the outcome of an exit order the gateway accepted: append
    /// the realized trade, remove the position and bump the trade
    /// counter, atomically with respect to the state's owner. Returns the
    /// appended record, or nothing - with the state untouched - when no
    /// position was open.
    pub fn record_exit(&mut self, symbol: &str, exit_price: u64, now: i64) -> (r: Option<
        TradeRecord,
    >)
        requires
            old(self).wf(),
            1 <= exit_price <= AMOUNT_MAX,
            old(self).trade_count < u32::MAX,
        ensures
            final(self).wf(),
            r is None <==> !has_position(old(self).positions@, symbol@),
            r is None ==> *final(self) == *old(self),
            r matches Some(rec) ==> {
                let i = position_index(old(self).positions@, symbol@);
                let p = old(self).positions@[i];
                &&& rec.symbol == p.symbol
                &&& rec.direction == p.direction
                &&& rec.size == p.size
                &&& rec.entry_price == p.entry_price
                &&& rec.exit_price == exit_price
                &&& rec.pnl as int == spec_pnl(
                    p.direction,
                    p.entry_price as int,
                    exit_price as int,
                    p.size as int,
                )
                &&& rec.timestamp == now
                &&& rec.duration as int == (if now >= p.opening_time {
                    now - p.opening_time
                } else {
                    0
                })
                &&& final(self).positions@ == old(self).positions@.remove(i)
                &&& final(self).trade_records@ == old(self).trade_records@.push(rec)
                &&& final(self).trade_count == old(self).trade_count + 1
            },
            final(self).config == old(self).config,
            final(self).balance == old(self).balance,
            final(self).equity_history == old(self).equity_history,
            final(self).trading_interval == old(self).trading_interval,
    {
        let found = self.find_position(symbol);
        match found {
            None => None,
            Some(i) => {
                let direction = self.positions[i].direction;
                let size = self.positions[i].size;
                let entry_price = self.positions[i].entry_price;
                let opening_time = self.positions[i].opening_time;
                let psymbol = self.positions[i].symbol.clone();
                proof {
                    assert(old(self).positions@[i as int].wf());
                    assert((exit_price as int - entry_price as int) * (size as int)
                        <= 10_000_000_000_000_000_000_000_000_000
                        && (exit_price as int - entry_price as int) * (size as int)
                        >= -10_000_000_000_000_000_000_000_000_000) by (nonlinear_arith)
                        requires
                            0 <= size as int <= 100_000_000_000_000_000,
                            1 <= entry_price as int <= 100_000_000_000,
                            1 <= exit_price as int <= 100_000_000_000;
                    assert((entry_price as int - exit_price as int) * (size as int)
                        <= 10_000_000_000_000_000_000_000_000_000
                        && (entry_price as int - exit_price as int) * (size as int)
                        >= -10_000_000_000_000_000_000_000_000_000) by (nonlinear_arith)
                        requires
                            0 <= size as int <= 100_000_000_000_000_000,
                            1 <= entry_price as int <= 100_000_000_000,
                            1 <= exit_price as int <= 100_000_000_000;
                }
                let pnl: i128 = match direction {
                    TradeDirection::Long => (exit_price as i128 - entry_price as i128) * (
                    size as i128),
                    TradeDirection::Short => (entry_price as i128 - exit_price as i128) * (
                    size as i128),
                    TradeDirection::Hold => 0,
                };
                let age: i128 = now as i128 - opening_time as i128;
                let duration: u64 = if age >= 0 {
                    age as u64
                } else {
                    0
                };
                let record = TradeRecord {
                    symbol: psymbol.clone(),
                    direction,
                    size,
                    entry_price,
                    exit_price,
                    pnl,
                    timestamp: now,
                    duration,
                };
                let stored = TradeRecord {
                    symbol: psymbol,
                    direction,
                    size,
                    entry_price,
                    exit_price,
                    pnl,
                    timestamp: now,
                    duration,
                };
                proof {
                    assert(stored == record);
                }
                self.trade_records.push(stored);
                self.positions.remove(i);
                self.trade_count = self.trade_count + 1;
                proof {
                    let ps = old(self).positions@;
                    assert forall|a: int, b: int| 0 <= a < b < self.positions@.len() implies (
                    #[trigger] self.positions@[a].symbol@) != (
                    #[trigger] self.positions@[b].symbol@) by {
                        let ra = if a < i as int {
                            a
                        } else {
                            a + 1
                        };
                        let rb = if b < i as int {
                            b
                        } else {
                            b + 1
                        };
                        assert(self.positions@[a] == ps[ra]);
                        assert(self.positions@[b] == ps[rb]);
                    }
                    assert forall|k: int| 0 <= k < self.positions@.len() implies (
                    #[trigger] self.positions@[k]).wf() by {
                        let rk = if k < i as int {
                            k
                        } else {
                            k + 1
                        };
                        assert(self.positions@[k] == ps[rk]);
                    }
                }
                Some(record)
            },
        }
    }
}

} // verus!
