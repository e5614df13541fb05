//! Signal generation: moving averages, the deviation rule, candle
//! volatility, and position sizing.
//!
//! The deviation test is exact. With `S` the sum of the last twenty closes
//! and `c` the last close, the real-number rule `(c - S/20) / (S/20) >
//! 0.002` is equivalent to `20000 * c > 1002 * S`, and the opposite side to
//! `20000 * c < 998 * S`; no rounding enters the decision. Confidence,
//! stops and targets are fixed-point with floored division.
use vstd::prelude::*;

use crate::num::annualized_vol_of;
use crate::num::lemma_sum_int_subrange_snoc;
use crate::num::rets_bounded;
use crate::num::rets_ints;
use crate::num::returns_of;
use crate::num::sqrt_floor;
use crate::num::sum_int;
use crate::num::to_int_seq;
use crate::num::variance_of_returns;
use crate::num::variance_ppm2;
use crate::num::window_volatility_ppm;
use crate::num::MAX_STAT_SAMPLES;
use crate::strategy::HighFrequencyStrategy;
use crate::types::bars_wf;
use crate::types::PriceData;
use crate::types::TradeDirection;
use crate::types::TradeSignal;
use crate::types::AMOUNT_MAX;
use crate::types::MIN_SIGNAL_BARS;
use crate::types::PPM_SCALE;
use crate::types::SIZE_MAX;
use crate::types::VOLATILITY_FLOOR_PPM;

verus! {

/// The closes of a window, as integers.
pub open spec fn closes_of(bars: Seq<PriceData>) -> Seq<int> {
    bars.map_values(|b: PriceData| b.close as int)
}

/// Sum of the last `period` closes.
pub open spec fn window_sum(bars: Seq<PriceData>, period: int) -> int
    recommends
        1 <= period <= bars.len(),
{
    sum_int(closes_of(bars).subrange(bars.len() - period, bars.len() as int))
}

/// Mean of the last `period` closes, floored; zero on a short window.
pub open spec fn spec_ma(bars: Seq<PriceData>, period: int) -> int {
    if period < 1 || bars.len() < period {
        0
    } else {
        window_sum(bars, period) / period
    }
}

/// The last close of a non-empty window.
pub open spec fn spec_last_close(bars: Seq<PriceData>) -> int
    recommends
        bars.len() > 0,
{
    bars.last().close as int
}

/// Direction of the deviation signal: overextension upward is sold short,
/// downward is bought, and anything within the band - or a window under
/// twenty bars - holds.
pub open spec fn spec_signal_direction(bars: Seq<PriceData>) -> TradeDirection {
    if bars.len() < MIN_SIGNAL_BARS {
        TradeDirection::Hold
    } else {
        let s = window_sum(bars, 20);
        let c = spec_last_close(bars);
        if 20000 * c > 1002 * s {
            TradeDirection::Short
        } else if 20000 * c < 998 * s {
            TradeDirection::Long
        } else {
            TradeDirection::Hold
        }
    }
}

/// Absolute deviation from the medium moving average in ppm, floored;
/// zero for a hold.
pub open spec fn spec_confidence_ppm(bars: Seq<PriceData>) -> int {
    match spec_signal_direction(bars) {
        TradeDirection::Short => ((20 * spec_last_close(bars) - window_sum(bars, 20)) * (
        PPM_SCALE as int)) / window_sum(bars, 20),
        TradeDirection::Long => ((window_sum(bars, 20) - 20 * spec_last_close(bars)) * (
        PPM_SCALE as int)) / window_sum(bars, 20),
        TradeDirection::Hold => 0,
    }
}

/// `value` scaled by a ppm fraction, floored.
pub open spec fn ppm_of(value: int, ppm: int) -> int {
    (value * ppm) / (PPM_SCALE as int)
}

/// Candle-window volatility used for sizing: annualized, floored at one
/// percent so a flat window cannot blow the size up.
pub open spec fn spec_candle_vol(bars: Seq<PriceData>) -> int {
    if bars.len() < 2 {
        VOLATILITY_FLOOR_PPM as int
    } else {
        let v = annualized_vol_of(returns_of(closes_of(bars)));
        if v < VOLATILITY_FLOOR_PPM as int {
            VOLATILITY_FLOOR_PPM as int
        } else {
            v
        }
    }
}

/// Sizing damper in ppm: one when volatility is at or under the 0.002
/// deviation target, shrinking proportionally above it.
pub open spec fn spec_vol_adjustment_ppm(vol: int) -> int {
    if vol == 0 {
        PPM_SCALE as int
    } else if 2_000_000_000int / vol < PPM_SCALE as int {
        2_000_000_000int / vol
    } else {
        PPM_SCALE as int
    }
}

/// Position size in size units: the balance fraction at the current
/// price, damped by the volatility adjustment, floored.
pub open spec fn spec_position_size(balance: int, fraction_ppm: int, price: int, vol: int) -> int
    recommends
        price >= 1,
{
    (balance * fraction_ppm * spec_vol_adjustment_ppm(vol)) / (price * (PPM_SCALE as int))
}

/// `value * ppm / PPM_SCALE`, exactly; never exceeds `value`.
pub fn mul_ppm(value: u64, ppm: u64) -> (r: u64)
    requires
        value <= AMOUNT_MAX,
        ppm <= PPM_SCALE,
    ensures
        r == ppm_of(value as int, ppm as int),
        r <= value,
{
    proof {
        assert(0 <= value as int * ppm as int <= 100_000_000_000_000_000) by (nonlinear_arith)
            requires
                0 <= ppm as int <= 1_000_000,
                0 <= value as int <= 100_000_000_000;
        assert(value as int * ppm as int <= value as int * PPM_SCALE as int) by (nonlinear_arith)
            requires 0 <= ppm as int <= PPM_SCALE as int, value as int >= 0;
    }
    let num: u128 = value as u128 * ppm as u128;
    proof {
        vstd::arithmetic::div_mod::lemma_div_is_ordered(
            num as int,
            value as int * PPM_SCALE as int,
            PPM_SCALE as int,
        );
        vstd::arithmetic::div_mod::lemma_div_multiples_vanish(value as int, PPM_SCALE as int);
        vstd::arithmetic::div_mod::lemma_div_pos_is_pos(num as int, PPM_SCALE as int);
    }
    (num / PPM_SCALE as u128) as u64
}

impl HighFrequencyStrategy {
    /// Mean close of the last `period` bars, floored; zero when the
    /// window is shorter than the period.
    pub fn calculate_moving_average(&self, price_data: &Vec<PriceData>, period: usize) -> (r: u64)
        requires
            bars_wf(price_data@),
            1 <= period <= MAX_STAT_SAMPLES,
        ensures
            r == spec_ma(price_data@, period as int),
    {
        let n = price_data.len();
        if n < period {
            return 0;
        }
        let ghost closes = closes_of(price_data@);
        let start = n - period;
        let mut acc: u64 = 0;
        let mut j: usize = start;
        while j < n
            invariant
                start <= j <= n,
                n == price_data@.len(),
                start == n - period,
                1 <= period <= MAX_STAT_SAMPLES,
                bars_wf(price_data@),
                closes == closes_of(price_data@),
                acc as int == sum_int(closes.subrange(start as int, j as int)),
                acc as int <= (j - start) * 100_000_000_000,
            decreases n - j,
        {
            proof {
                lemma_sum_int_subrange_snoc(closes, start as int, j as int);
                assert(price_data@[j as int].wf());
            }
            acc = acc + price_data[j].close;
            j = j + 1;
        }
        proof {
            vstd::arithmetic::div_mod::lemma_div_pos_is_pos(acc as int, period as int);
        }
        acc / period as u64
    }

    /// The deviation signal for a candle window, with direction-correct
    /// stop and target and the absolute deviation as confidence. A window
    /// under twenty bars holds with zero confidence.
    pub fn generate_signal(&self, symbol: &str, price_data: &Vec<PriceData>) -> (r: TradeSignal)
        requires
            self.config.wf(),
            bars_wf(price_data@),
            price_data@.len() <= MAX_STAT_SAMPLES,
        ensures
            r.symbol@ == symbol@,
            r.direction == spec_signal_direction(price_data@),
            r.confidence == spec_confidence_ppm(price_data@),
            price_data@.len() < MIN_SIGNAL_BARS ==> r.price == 0,
            price_data@.len() >= MIN_SIGNAL_BARS ==> r.price == spec_last_close(price_data@),
            r.direction == TradeDirection::Short ==> {
                let c = spec_last_close(price_data@);
                r.stop_loss == c + ppm_of(c, self.config.stop_loss_pct as int)
                    && r.take_profit == c - ppm_of(c, self.config.take_profit_pct as int)
            },
            r.direction == TradeDirection::Long ==> {
                let c = spec_last_close(price_data@);
                r.stop_loss == c - ppm_of(c, self.config.stop_loss_pct as int)
                    && r.take_profit == c + ppm_of(c, self.config.take_profit_pct as int)
            },
            r.direction == TradeDirection::Hold ==> r.stop_loss == 0 && r.take_profit == 0,
            r.price <= AMOUNT_MAX,
            r.stop_loss <= 2 * AMOUNT_MAX,
            r.take_profit <= 2 * AMOUNT_MAX,
    {
        let n = price_data.len();
        if n < MIN_SIGNAL_BARS {
            return TradeSignal {
                symbol: String::from_str(symbol),
                direction: TradeDirection::Hold,
                confidence: 0,
                price: 0,
                stop_loss: 0,
                take_profit: 0,
            };
        }
        let ghost closes = closes_of(price_data@);
        let start = n - 20;
        let mut s: u64 = 0;
        let mut j: usize = start;
        while j < n
            invariant
                start <= j <= n,
                n == price_data@.len(),
                start == n - 20,
                n >= 20,
                bars_wf(price_data@),
                closes == closes_of(price_data@),
                s as int == sum_int(closes.subrange(start as int, j as int)),
                (j - start) <= s as int <= (j - start) * 100_000_000_000,
            decreases n - j,
        {
            proof {
                lemma_sum_int_subrange_snoc(closes, start as int, j as int);
                assert(price_data@[j as int].wf());
            }
            s = s + price_data[j].close;
            j = j + 1;
        }
        let ghost gsum = window_sum(price_data@, 20);
        proof {
            assert(s as int == gsum);
            assert(price_data@[n - 1].wf());
        }
        let c = price_data[n - 1].close;
        let lhs: u128 = 20000u128 * c as u128;
        if lhs > 1002u128 * s as u128 {
            // Over the band: sell the overextension.
            let num: u128 = (20u128 * c as u128 - s as u128) * 1_000_000u128;
            proof {
                vstd::arithmetic::div_mod::lemma_div_is_ordered_by_denominator(
                    num as int,
                    20,
                    s as int,
                );
                vstd::arithmetic::div_mod::lemma_div_is_ordered(
                    num as int,
                    2_000_000_000_000_000_000,
                    20,
                );
                vstd::arithmetic::div_mod::lemma_div_pos_is_pos(num as int, s as int);
            }
            let confidence = (num / s as u128) as u64;
            let stop_loss = c + mul_ppm(c, self.config.stop_loss_pct);
            let take_profit = c - mul_ppm(c, self.config.take_profit_pct);
            TradeSignal {
                symbol: String::from_str(symbol),
                direction: TradeDirection::Short,
                confidence,
                price: c,
                stop_loss,
                take_profit,
            }
        } else if lhs < 998u128 * s as u128 {
            // Under the band: buy the dip.
            let num: u128 = (s as u128 - 20u128 * c as u128) * 1_000_000u128;
            proof {
                vstd::arithmetic::div_mod::lemma_div_is_ordered_by_denominator(
                    num as int,
                    20,
                    s as int,
                );
                vstd::arithmetic::div_mod::lemma_div_is_ordered(
                    num as int,
                    2_000_000_000_000_000_000,
                    20,
                );
                vstd::arithmetic::div_mod::lemma_div_pos_is_pos(num as int, s as int);
            }
            let confidence = (num / s as u128) as u64;
            let stop_loss = c - mul_ppm(c, self.config.stop_loss_pct);
            let take_profit = c + mul_ppm(c, self.config.take_profit_pct);
            TradeSignal {
                symbol: String::from_str(symbol),
                direction: TradeDirection::Long,
                confidence,
                price: c,
                stop_loss,
                take_profit,
            }
        } else {
            TradeSignal {
                symbol: String::from_str(symbol),
                direction: TradeDirection::Hold,
                confidence: 0,
                price: c,
                stop_loss: 0,
                take_profit: 0,
            }
        }
    }

    /// Annualized volatility of a candle window in ppm, floored at one
    /// percent; the default on a window too short to hold a return.
    pub fn calculate_volatility(&self, price_data: &Vec<PriceData>) -> (r: u64)
        requires
            bars_wf(price_data@),
            price_data@.len() <= MAX_STAT_SAMPLES,
        ensures
            r == spec_candle_vol(price_data@),
            VOLATILITY_FLOOR_PPM <= r <= 3_200_000_000_000_000_000,
    {
        let n = price_data.len();
        if n < 2 {
            return VOLATILITY_FLOOR_PPM;
        }
        let mut closes: Vec<u64> = Vec::new();
        let mut j: usize = 0;
        while j < n
            invariant
                0 <= j <= n,
                n == price_data@.len(),
                bars_wf(price_data@),
                closes@.len() == j,
                forall|i: int| 0 <= i < j ==> #[trigger] closes@[i] == price_data@[i].close,
            decreases n - j,
        {
            proof {
                assert(price_data@[j as int].wf());
            }
            closes.push(price_data[j].close);
            j = j + 1;
        }
        proof {
            assert forall|i: int| 0 <= i < n implies 1 <= #[trigger] closes@[i]
                <= AMOUNT_MAX by {
                assert(price_data@[i].wf());
            }
            assert(to_int_seq(closes@) =~= closes_of(price_data@));
        }
        let v = window_volatility_ppm(&closes);
        if v < VOLATILITY_FLOOR_PPM {
            VOLATILITY_FLOOR_PPM
        } else {
            v
        }
    }

    /// Standard deviation of a return vector in ppm: the floor square
    /// root of its floored variance.
    pub fn calculate_standard_deviation(&self, data: &Vec<i64>) -> (r: u64)
        requires
            1 <= data@.len() < MAX_STAT_SAMPLES,
            rets_bounded(data@),
        ensures
            r == sqrt_floor(variance_ppm2(rets_ints(data@)) as nat),
    {
        let variance = variance_of_returns(data);
        crate::num::isqrt_u128(variance)
    }

    /// Position size in size units for the balance fraction at the given
    /// price, damped when volatility exceeds the deviation target.
    pub fn calculate_position_size(&self, current_price: u64, volatility: u64) -> (r: u64)
        requires
            self.config.wf(),
            1 <= self.balance <= AMOUNT_MAX,
            1 <= current_price <= AMOUNT_MAX,
        ensures
            r == spec_position_size(
                self.balance as int,
                self.config.base_position_size as int,
                current_price as int,
                volatility as int,
            ),
            r <= SIZE_MAX,
    {
        let adjustment: u64 = if volatility == 0 {
            1_000_000
        } else {
            let q = 2_000_000_000u64 / volatility;
            if q < 1_000_000 {
                q
            } else {
                1_000_000
            }
        };
        proof {
            assert(adjustment as int == spec_vol_adjustment_ppm(volatility as int));
            assert(self.balance as int * self.config.base_position_size as int
                <= 100_000_000_000_000_000) by (nonlinear_arith)
                requires
                    0 <= self.balance as int <= 100_000_000_000,
                    0 <= self.config.base_position_size as int <= 1_000_000;
        }
        let bf: u128 = self.balance as u128 * self.config.base_position_size as u128;
        proof {
            assert(bf as int * adjustment as int
                <= 100_000_000_000_000_000_000_000) by (nonlinear_arith)
                requires
                    0 <= bf as int <= 100_000_000_000_000_000,
                    0 <= adjustment as int <= 1_000_000;
        }
        let num: u128 = bf * adjustment as u128;
        let den: u128 = current_price as u128 * 1_000_000u128;
        proof {
            vstd::arithmetic::div_mod::lemma_div_is_ordered_by_denominator(
                num as int,
                1_000_000,
                den as int,
            );
            vstd::arithmetic::div_mod::lemma_div_is_ordered(
                num as int,
                100_000_000_000_000_000_000_000,
                1_000_000,
            );
            vstd::arithmetic::div_mod::lemma_div_pos_is_pos(num as int, den as int);
        }
        (num / den) as u64
    }
}

} // verus!
