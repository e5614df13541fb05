//! The performance reporter: a read-only snapshot of the strategy
//! controller's state.
//!
//! The report carries exact integers - realized volatility against its
//! target, trailing-day volume against its target, the trade count, the
//! trailing-day profit and the current cadence. Turning them into display
//! ratios is the caller's concern; nothing here mutates the controller.
use vstd::prelude::*;

use crate::num::lemma_sum_int_take_snoc;
use crate::num::sum_int;
use crate::rate::in_trailing_day;
use crate::rate::spec_daily_volume;
use crate::rate::spec_volume_target;
use crate::strategy::HighFrequencyStrategy;
use crate::types::TradeRecord;
use crate::types::DAY_SECONDS;

verus! {

/// A snapshot of the controller's health at one instant.
#[derive(Debug, Clone)]
pub struct PerformanceReport {
    pub timestamp: i64,
    pub portfolio_value: u64,
    pub current_volatility: u64,
    pub target_volatility: u64,
    pub daily_volume: u128,
    pub volume_target: u128,
    pub today_trades: u32,
    pub today_pnl: i128,
    pub trading_interval: u64,
}

/// Per-record trailing-day profits.
pub open spec fn record_pnls(rs: Seq<TradeRecord>, now: int) -> Seq<int> {
    rs.map_values(
        |r: TradeRecord|
            if in_trailing_day(r.timestamp as int, now) {
                r.pnl as int
            } else {
                0int
            },
    )
}

/// Realized profit over the trailing day.
pub open spec fn spec_today_pnl(rs: Seq<TradeRecord>, now: int) -> int {
    sum_int(record_pnls(rs, now))
}

impl HighFrequencyStrategy {
    /// Realized profit over the trailing day: the sum of every record
    /// that closed within it.
    pub fn today_pnl(&self, now: i64) -> (r: i128)
        requires
            self.wf(),
        ensures
            r == spec_today_pnl(self.trade_records@, now as int),
    {
        let ghost pnls = record_pnls(self.trade_records@, now as int);
        let n = self.trade_records.len();
        proof {
            assert(n <= u32::MAX as int);
        }
        let mut acc: i128 = 0;
        let mut i: usize = 0;
        while i < n
            invariant
                0 <= i <= n,
                n == self.trade_records@.len(),
                self.wf(),
                pnls == record_pnls(self.trade_records@, now as int),
                n <= u32::MAX as int,
                acc as int == sum_int(pnls.take(i as int)),
                -(i as int * 10_000_000_000_000_000_000_000_000_000) <= acc as int <= i as int
                    * 10_000_000_000_000_000_000_000_000_000,
            decreases n - i,
        {
            let rec = &self.trade_records[i];
            proof {
                assert(self.trade_records@[i as int].wf());
                lemma_sum_int_take_snoc(pnls, i as int);
            }
            let age: i128 = now as i128 - rec.timestamp as i128;
            if age < DAY_SECONDS as i128 {
                acc = acc + rec.pnl;
            }
            i = i + 1;
        }
        proof {
            assert(pnls.take(n as int) =~= pnls);
        }
        acc
    }

    /// A read-only snapshot of the controller: balance, realized
    /// volatility against its target, trailing-day volume against its
    /// target, today's trades and profit, and the current cadence.
    pub fn performance_report(&self, now: i64) -> (r: PerformanceReport)
        requires
            self.wf(),
        ensures
            r.timestamp == now,
            r.portfolio_value == self.balance,
            r.current_volatility == self.spec_current_vol(),
            r.target_volatility == self.config.target_volatility,
            r.daily_volume == spec_daily_volume(self.trade_records@, now as int),
            r.volume_target == spec_volume_target(self.balance as int),
            r.today_trades == self.trade_count,
            r.today_pnl == spec_today_pnl(self.trade_records@, now as int),
            r.trading_interval == self.trading_interval,
    {
        let current_volatility = self.get_current_volatility();
        let daily_volume = self.calculate_daily_volume(now);
        let volume_target: u128 = self.balance as u128 * 100_000_000u128;
        proof {
            assert(volume_target as int == spec_volume_target(self.balance as int));
        }
        let today_pnl = self.today_pnl(now);
        PerformanceReport {
            timestamp: now,
            portfolio_value: self.balance,
            current_volatility,
            target_volatility: self.config.target_volatility,
            daily_volume,
            volume_target,
            today_trades: self.trade_count,
            today_pnl,
            trading_interval: self.trading_interval,
        }
    }
}

} // verus!
