//! The adaptive rate controller: equity volatility, the trailing-day
//! volume, and the asymmetric cadence tuning with dead zones.
//!
//! Ratio tests against 0.8 and 1.2 are exact integer comparisons:
//! `x / y < 0.8` is `5 * x < 4 * y` and `x / y > 1.2` is `5 * x > 6 * y`.
//! When both the volume quota and volatility run under eighty percent of
//! target the interval shrinks by a tenth, floored at its lower bound;
//! when volatility runs over a hundred twenty percent it grows by half,
//! capped at its upper bound; otherwise it stands.
use vstd::prelude::*;

use crate::num::annualized_vol_of;
use crate::num::lemma_sum_int_take_snoc;
use crate::num::returns_of;
use crate::num::sum_int;
use crate::num::to_int_seq;
use crate::num::window_volatility_ppm;
use crate::strategy::HighFrequencyStrategy;
use crate::types::TradeRecord;
use crate::types::DAY_SECONDS;
use crate::types::MIN_VOLATILITY_SAMPLES;
use crate::types::SIZE_SCALE;

verus! {

/// A record counts toward "today" when it closed within the trailing day.
pub open spec fn in_trailing_day(ts: int, now: int) -> bool {
    now - ts < DAY_SECONDS as int
}

/// Notional turned over by one record inside the trailing day: both legs
/// of size times entry price; zero outside the day.
pub open spec fn record_volume(r: TradeRecord, now: int) -> int {
    if in_trailing_day(r.timestamp as int, now) {
        2 * (r.size as int) * (r.entry_price as int)
    } else {
        0
    }
}

/// Per-record trailing-day volumes.
pub open spec fn record_volumes(rs: Seq<TradeRecord>, now: int) -> Seq<int> {
    rs.map_values(|r: TradeRecord| record_volume(r, now))
}

/// Notional traded over the trailing day.
pub open spec fn spec_daily_volume(rs: Seq<TradeRecord>, now: int) -> int {
    sum_int(record_volumes(rs, now))
}

/// The day's volume target: one hundred times the balance, in the raw
/// unit of `spec_daily_volume` (price units times size units).
pub open spec fn spec_volume_target(balance: int) -> int {
    balance * 100 * (SIZE_SCALE as int)
}

/// The volume quota runs under eighty percent of target.
pub open spec fn spec_volume_low(dv: int, vt: int) -> bool {
    5 * dv < 4 * vt
}

/// Volatility runs under eighty percent of target.
pub open spec fn spec_vol_low(vol: int, target: int) -> bool {
    5 * vol < 4 * target
}

/// Volatility runs over a hundred twenty percent of target.
pub open spec fn spec_vol_high(vol: int, target: int) -> bool {
    5 * vol > 6 * target
}

/// The interval shrunk by a tenth, floored at its lower bound.
pub open spec fn spec_shrunk_interval(iv: int, min_iv: int) -> int {
    let s = (9 * iv) / 10;
    if s < min_iv {
        min_iv
    } else {
        s
    }
}

/// The interval grown by half, capped at its upper bound.
pub open spec fn spec_grown_interval(iv: int, max_iv: int) -> int {
    let g = (3 * iv) / 2;
    if g > max_iv {
        max_iv
    } else {
        g
    }
}

/// One tuning step of the trade interval, from the three ratio tests.
pub open spec fn spec_tuned_interval(
    iv: int,
    min_iv: int,
    max_iv: int,
    volume_low: bool,
    vol_low: bool,
    vol_high: bool,
) -> int {
    if volume_low && vol_low {
        spec_shrunk_interval(iv, min_iv)
    } else if vol_high {
        spec_grown_interval(iv, max_iv)
    } else {
        iv
    }
}

/// A shrunk interval never exceeds the interval it came from.
pub proof fn lemma_shrunk_le(iv: int)
    requires
        iv >= 0,
    ensures
        (9 * iv) / 10 <= iv,
        (9 * iv) / 10 >= 0,
{
    vstd::arithmetic::div_mod::lemma_div_is_ordered(9 * iv, 10 * iv, 10);
    vstd::arithmetic::div_mod::lemma_div_multiples_vanish(iv, 10);
    vstd::arithmetic::div_mod::lemma_div_pos_is_pos(9 * iv, 10);
}

/// A grown interval never falls below the interval it came from.
pub proof fn lemma_grown_ge(iv: int)
    requires
        iv >= 0,
    ensures
        (3 * iv) / 2 >= iv,
{
    vstd::arithmetic::div_mod::lemma_div_is_ordered(2 * iv, 3 * iv, 2);
    vstd::arithmetic::div_mod::lemma_div_multiples_vanish(iv, 2);
}

/// The rate controller never leaves the configured interval band: one
/// tuning step from a conforming interval conforms, whatever the ratio
/// tests said; by induction, no sequence of tuning calls can escape the
/// band.
pub proof fn lemma_tuned_interval_in_bounds(
    iv: int,
    min_iv: int,
    max_iv: int,
    volume_low: bool,
    vol_low: bool,
    vol_high: bool,
)
    requires
        1 <= min_iv <= iv <= max_iv,
    ensures
        min_iv <= spec_tuned_interval(iv, min_iv, max_iv, volume_low, vol_low, vol_high)
            <= max_iv,
{
    lemma_shrunk_le(iv);
    lemma_grown_ge(iv);
}

/// Tuning with unchanged ratio outcomes leaves the interval unchanged in
/// the dead zone always, and in an active branch once the interval stands
/// at the bound that branch drives it toward; a second identical call is
/// then a no-op.
pub proof fn lemma_tune_fixed_point(
    iv: int,
    min_iv: int,
    max_iv: int,
    volume_low: bool,
    vol_low: bool,
    vol_high: bool,
)
    requires
        1 <= min_iv <= iv <= max_iv,
        (volume_low && vol_low) ==> iv == min_iv,
        (!(volume_low && vol_low) && vol_high) ==> iv == max_iv,
    ensures
        spec_tuned_interval(iv, min_iv, max_iv, volume_low, vol_low, vol_high) == iv,
{
    lemma_shrunk_le(iv);
    lemma_grown_ge(iv);
}

impl HighFrequencyStrategy {
    /// Annualized equity-return volatility in ppm; zero (meaning
    /// "unconstrained") until twenty samples exist.
    pub open spec fn spec_current_vol(&self) -> int {
        if self.equity_history@.len() < MIN_VOLATILITY_SAMPLES {
            0
        } else {
            annualized_vol_of(returns_of(to_int_seq(self.equity_history@)))
        }
    }

    /// The volatility circuit breaker: realized volatility runs over a
    /// hundred twenty percent of target.
    pub open spec fn spec_vol_breaker(&self) -> bool {
        spec_vol_high(self.spec_current_vol(), self.config.target_volatility as int)
    }

    /// Annualized volatility of the equity ring in ppm, zero until the
    /// ring holds twenty samples.
    pub fn get_current_volatility(&self) -> (r: u64)
        requires
            self.wf(),
        ensures
            r == self.spec_current_vol(),
            r <= 3_200_000_000_000_000_000,
    {
        if self.equity_history.len() < MIN_VOLATILITY_SAMPLES {
            return 0;
        }
        window_volatility_ppm(&self.equity_history)
    }

    /// Whether the volatility circuit breaker trips; the main loop must
    /// then pause all new entries for a cooldown rather than trade.
    pub fn check_volatility_limits(&self) -> (r: bool)
        requires
            self.wf(),
        ensures
            r == self.spec_vol_breaker(),
    {
        let vol = self.get_current_volatility();
        5u128 * (vol as u128) > 6u128 * (self.config.target_volatility as u128)
    }

    /// Notional traded over the trailing day: both legs of every record
    /// that closed within it.
    pub fn calculate_daily_volume(&self, now: i64) -> (r: u128)
        requires
            self.wf(),
        ensures
            r == spec_daily_volume(self.trade_records@, now as int),
    {
        let ghost vols = record_volumes(self.trade_records@, now as int);
        let n = self.trade_records.len();
        proof {
            assert(n <= u32::MAX as int);
        }
        let mut acc: u128 = 0;
        let mut i: usize = 0;
        while i < n
            invariant
                0 <= i <= n,
                n == self.trade_records@.len(),
                self.wf(),
                vols == record_volumes(self.trade_records@, now as int),
                n <= u32::MAX as int,
                acc as int == sum_int(vols.take(i as int)),
                acc as int <= i as int * 20_000_000_000_000_000_000_000_000_000,
            decreases n - i,
        {
            let rec = &self.trade_records[i];
            proof {
                assert(self.trade_records@[i as int].wf());
                assert(0 <= 2 * (rec.size as int) * (rec.entry_price as int)
                    <= 20_000_000_000_000_000_000_000_000_000) by (nonlinear_arith)
                    requires
                        0 <= rec.size as int <= 100_000_000_000_000_000,
                        0 <= rec.entry_price as int <= 100_000_000_000;
                lemma_sum_int_take_snoc(vols, i as int);
            }
            let age: i128 = now as i128 - rec.timestamp as i128;
            if age < DAY_SECONDS as i128 {
                acc = acc + 2 * (rec.size as u128) * (rec.entry_price as u128);
            }
            i = i + 1;
        }
        proof {
            assert(vols.take(n as int) =~= vols);
        }
        acc
    }

    /// Shrink the cadence by a tenth, floored at the configured minimum,
    /// but only while volatility runs under eighty percent of target:
    /// a frequency increase must never push volatility over target.
    pub fn increase_trading_frequency(&mut self)
        requires
            old(self).wf(),
        ensures
            final(self).wf(),
            spec_vol_low(
                old(self).spec_current_vol(),
                old(self).config.target_volatility as int,
            ) ==> final(self).trading_interval == spec_shrunk_interval(
                old(self).trading_interval as int,
                old(self).config.min_trade_interval as int,
            ),
            !spec_vol_low(
                old(self).spec_current_vol(),
                old(self).config.target_volatility as int,
            ) ==> final(self).trading_interval == old(self).trading_interval,
            final(self).config == old(self).config,
            final(self).balance == old(self).balance,
            final(self).equity_history == old(self).equity_history,
            final(self).trade_count == old(self).trade_count,
            final(self).positions == old(self).positions,
            final(self).trade_records == old(self).trade_records,
    {
        let vol = self.get_current_volatility();
        if 5u128 * (vol as u128) < 4u128 * (self.config.target_volatility as u128) {
            proof {
                lemma_shrunk_le(self.trading_interval as int);
            }
            let shrunk: u128 = (9u128 * self.trading_interval as u128) / 10;
            let floor = self.config.min_trade_interval;
            if shrunk < floor as u128 {
                self.trading_interval = floor;
            } else {
                self.trading_interval = shrunk as u64;
            }
        }
    }

    /// Grow the cadence by half, capped at the configured maximum.
    pub fn reduce_trading_frequency(&mut self)
        requires
            old(self).wf(),
        ensures
            final(self).wf(),
            final(self).trading_interval == spec_grown_interval(
                old(self).trading_interval as int,
                old(self).config.max_trade_interval as int,
            ),
            final(self).config == old(self).config,
            final(self).balance == old(self).balance,
            final(self).equity_history == old(self).equity_history,
            final(self).trade_count == old(self).trade_count,
            final(self).positions == old(self).positions,
            final(self).trade_records == old(self).trade_records,
    {
        proof {
            lemma_grown_ge(self.trading_interval as int);
        }
        let grown: u128 = (3u128 * self.trading_interval as u128) / 2;
        let cap = self.config.max_trade_interval;
        if grown > cap as u128 {
            self.trading_interval = cap;
        } else {
            self.trading_interval = grown as u64;
        }
    }

    /// One tuning step after a completed trade: shrink the interval when
    /// both the volume quota and volatility run low, grow it when
    /// volatility runs high, and otherwise leave it alone.
    pub fn adjust_trading_frequency(&mut self, now: i64)
        requires
            old(self).wf(),
        ensures
            final(self).wf(),
            final(self).trading_interval == spec_tuned_interval(
                old(self).trading_interval as int,
                old(self).config.min_trade_interval as int,
                old(self).config.max_trade_interval as int,
                spec_volume_low(
                    spec_daily_volume(old(self).trade_records@, now as int),
                    spec_volume_target(old(self).balance as int),
                ),
                spec_vol_low(
                    old(self).spec_current_vol(),
                    old(self).config.target_volatility as int,
                ),
                spec_vol_high(
                    old(self).spec_current_vol(),
                    old(self).config.target_volatility as int,
                ),
            ),
            final(self).config == old(self).config,
            final(self).balance == old(self).balance,
            final(self).equity_history == old(self).equity_history,
            final(self).trade_count == old(self).trade_count,
            final(self).positions == old(self).positions,
            final(self).trade_records == old(self).trade_records,
    {
        let dv = self.calculate_daily_volume(now);
        let vt: u128 = self.balance as u128 * 100_000_000u128;
        proof {
            assert(vt as int == spec_volume_target(self.balance as int));
        }
        let vol = self.get_current_volatility();
        let target = self.config.target_volatility;
        // `5 * dv` may not fit in u128 at the extreme; `5 * dv < 4 * vt`
        // is equivalent to `dv < vt && 5 * (vt - dv) > vt`.
        let volume_low = dv < vt && 5 * (vt - dv) > vt;
        proof {
            assert(volume_low == spec_volume_low(dv as int, vt as int));
        }
        let vol_low = 5u128 * (vol as u128) < 4u128 * (target as u128);
        let vol_high = 5u128 * (vol as u128) > 6u128 * (target as u128);
        if volume_low && vol_low {
            self.increase_trading_frequency();
        } else if vol_high {
            self.reduce_trading_frequency();
        }
    }

    /// After a cycle, shrink the cadence if the volume quota runs under
    /// eighty percent of target and the daily trade cap is not yet
    /// reached; the shrink itself still demands low volatility.
    pub fn check_volume_target(&mut self, now: i64)
        requires
            old(self).wf(),
        ensures
            final(self).wf(),
            final(self).trading_interval == if spec_volume_low(
                spec_daily_volume(old(self).trade_records@, now as int),
                spec_volume_target(old(self).balance as int),
            ) && old(self).trade_count < old(self).config.max_trades_per_day && spec_vol_low(
                old(self).spec_current_vol(),
                old(self).config.target_volatility as int,
            ) {
                spec_shrunk_interval(
                    old(self).trading_interval as int,
                    old(self).config.min_trade_interval as int,
                )
            } else {
                old(self).trading_interval as int
            },
            final(self).config == old(self).config,
            final(self).balance == old(self).balance,
            final(self).equity_history == old(self).equity_history,
            final(self).trade_count == old(self).trade_count,
            final(self).positions == old(self).positions,
            final(self).trade_records == old(self).trade_records,
    {
        let dv = self.calculate_daily_volume(now);
        let vt: u128 = self.balance as u128 * 100_000_000u128;
        proof {
            assert(vt as int == spec_volume_target(self.balance as int));
        }
        let volume_low = dv < vt && 5 * (vt - dv) > vt;
        proof {
            assert(volume_low == spec_volume_low(dv as int, vt as int));
        }
        if volume_low && self.trade_count < self.config.max_trades_per_day {
            self.increase_trading_frequency();
        }
    }
}

} // verus!
