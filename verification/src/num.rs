//! Fixed-point statistics: exact sums, truncating division, integer square
//! root, and the per-period-return volatility estimate used by the signal
//! and the rate controller.
//!
//! A per-period return is held in ppm (parts per million). The volatility of
//! a sample window is the square root of the annualized variance of its
//! returns, again in ppm, with every division taken as the floor.
use vstd::prelude::*;

use crate::types::AMOUNT_MAX;
use crate::types::ANNUALIZATION;
use crate::types::PPM_SCALE;

verus! {

/// Largest magnitude a per-period return can reach in ppm:
/// `AMOUNT_MAX * PPM_SCALE`.
pub const RET_PPM_BOUND: u128 = 100_000_000_000_000_000;

/// Most samples a volatility window may hold; keeps the sum of squared
/// deviations inside `u128`.
pub const MAX_STAT_SAMPLES: usize = 1000;

/// Division that rounds toward zero, as the machine's signed division does.
pub open spec fn trunc_div(a: int, b: int) -> int
    recommends
        b >= 1,
{
    if a >= 0 {
        a / b
    } else {
        -((-a) / b)
    }
}

/// Sum of a sequence of integers.
pub open spec fn sum_int(s: Seq<int>) -> int
    decreases s.len(),
{
    if s.len() == 0 {
        0
    } else {
        sum_int(s.drop_last()) + s.last()
    }
}

pub proof fn lemma_sum_int_take_snoc(s: Seq<int>, i: int)
    requires
        0 <= i < s.len(),
    ensures
        sum_int(s.take(i + 1)) == sum_int(s.take(i)) + s[i],
{
    assert(s.take(i + 1).drop_last() =~= s.take(i));
}

pub proof fn lemma_sum_int_subrange_snoc(s: Seq<int>, a: int, j: int)
    requires
        0 <= a <= j < s.len(),
    ensures
        sum_int(s.subrange(a, j + 1)) == sum_int(s.subrange(a, j)) + s[j],
{
    assert(s.subrange(a, j + 1).drop_last() =~= s.subrange(a, j));
}

/// A `u64` window seen as mathematical integers.
pub open spec fn to_int_seq(s: Seq<u64>) -> Seq<int> {
    s.map_values(|v: u64| v as int)
}

/// Every sample positive and in range, so that each return is defined and
/// bounded.
pub open spec fn samples_ok(s: Seq<u64>) -> bool {
    forall|i: int| 0 <= i < s.len() ==> 1 <= #[trigger] s[i] <= AMOUNT_MAX
}

/// Per-period return of `cur` against `prev`, in ppm, rounded toward zero.
pub open spec fn ret_ppm(prev: int, cur: int) -> int
    recommends
        prev >= 1,
{
    if cur >= prev {
        ((cur - prev) * (PPM_SCALE as int)) / prev
    } else {
        -(((prev - cur) * (PPM_SCALE as int)) / prev)
    }
}

/// The consecutive-sample returns of a window, in ppm.
pub open spec fn returns_of(s: Seq<int>) -> Seq<int>
    recommends
        s.len() >= 1,
{
    Seq::new((s.len() - 1) as nat, |i: int| ret_ppm(s[i], s[i + 1]))
}

/// Mean return, rounded toward zero as the sample code rounds.
pub open spec fn mean_of(rets: Seq<int>) -> int
    recommends
        rets.len() > 0,
{
    trunc_div(sum_int(rets), rets.len() as int)
}

/// Squared deviations from the mean.
pub open spec fn dev_sqs(rets: Seq<int>) -> Seq<int> {
    Seq::new(rets.len(), |i: int| (rets[i] - mean_of(rets)) * (rets[i] - mean_of(rets)))
}

/// Population variance of the returns, in ppm squared, floored.
pub open spec fn variance_ppm2(rets: Seq<int>) -> int
    recommends
        rets.len() > 0,
{
    sum_int(dev_sqs(rets)) / (rets.len() as int)
}

/// Annualized volatility in ppm: the floor square root of the variance
/// scaled by the annualization factor.
pub open spec fn annualized_vol_of(rets: Seq<int>) -> int
    recommends
        rets.len() > 0,
        variance_ppm2(rets) >= 0,
{
    sqrt_floor((variance_ppm2(rets) * (ANNUALIZATION as int)) as nat) as int
}

/// Floor of the square root.
pub open spec fn sqrt_floor(x: nat) -> nat
    decreases x,
{
    if x == 0 {
        0
    } else {
        let p = sqrt_floor((x - 1) as nat);
        if (p + 1) * (p + 1) <= x {
            p + 1
        } else {
            p
        }
    }
}

pub proof fn lemma_sqrt_floor_bounds(x: nat)
    ensures
        sqrt_floor(x) * sqrt_floor(x) <= x,
        x < (sqrt_floor(x) + 1) * (sqrt_floor(x) + 1),
    decreases x,
{
    if x == 0 {
        assert(sqrt_floor(x) == 0);
        assert(x < (sqrt_floor(x) + 1) * (sqrt_floor(x) + 1)) by (nonlinear_arith)
            requires x == 0, sqrt_floor(x) == 0;
    } else {
        lemma_sqrt_floor_bounds((x - 1) as nat);
        let p = sqrt_floor((x - 1) as nat);
        assert(p * p <= x - 1);
        assert(x - 1 < (p + 1) * (p + 1));
        if (p + 1) * (p + 1) <= x {
            assert(sqrt_floor(x) == p + 1);
            assert((p + 1) * (p + 1) < (p + 2) * (p + 2)) by (nonlinear_arith);
            assert(x <= (p + 1) * (p + 1));
            assert(sqrt_floor(x) * sqrt_floor(x) <= x);
            assert(x < (sqrt_floor(x) + 1) * (sqrt_floor(x) + 1));
        } else {
            assert(sqrt_floor(x) == p);
            assert(sqrt_floor(x) * sqrt_floor(x) <= x);
            assert(x < (sqrt_floor(x) + 1) * (sqrt_floor(x) + 1));
        }
    }
}

pub proof fn lemma_sqrt_floor_unique(x: nat, r: nat)
    requires
        r * r <= x,
        x < (r + 1) * (r + 1),
    ensures
        r == sqrt_floor(x),
{
    lemma_sqrt_floor_bounds(x);
    let s = sqrt_floor(x);
    if r < s {
        assert(false) by (nonlinear_arith)
            requires r < s, s * s <= x, x < (r + 1) * (r + 1);
    }
    if s < r {
        assert(false) by (nonlinear_arith)
            requires s < r, r * r <= x, x < (s + 1) * (s + 1);
    }
}

/// Floor square root of a `u128`; the result always fits in a `u64`.
pub fn isqrt_u128(x: u128) -> (r: u64)
    ensures
        r == sqrt_floor(x as nat),
{
    let mut lo: u128 = 0;
    let mut hi: u128 = 18_446_744_073_709_551_615;
    proof {
        assert((hi + 1) * (hi + 1) > x as int) by (nonlinear_arith)
            requires hi == 18_446_744_073_709_551_615int, x <= u128::MAX;
    }
    while lo < hi
        invariant
            lo <= hi <= 18_446_744_073_709_551_615,
            (lo as int) * (lo as int) <= x as int,
            (x as int) < ((hi as int) + 1) * ((hi as int) + 1),
        decreases hi - lo,
    {
        let mid: u128 = lo + (hi - lo + 1) / 2;
        proof {
            assert(lo < mid <= hi);
        }
        if mid <= x / mid {
            proof {
                vstd::arithmetic::div_mod::lemma_fundamental_div_mod(x as int, mid as int);
                assert((mid as int) * (mid as int) <= x as int) by (nonlinear_arith)
                    requires
                        mid as int <= (x as int) / (mid as int),
                        x as int == (mid as int) * ((x as int) / (mid as int)) + (x as int) % (
                        mid as int),
                        (x as int) % (mid as int) >= 0,
                        mid >= 1;
            }
            lo = mid;
        } else {
            proof {
                vstd::arithmetic::div_mod::lemma_fundamental_div_mod(x as int, mid as int);
                assert((x as int) < (mid as int) * (mid as int)) by (nonlinear_arith)
                    requires
                        mid as int > (x as int) / (mid as int),
                        x as int == (mid as int) * ((x as int) / (mid as int)) + (x as int) % (
                        mid as int),
                        (x as int) % (mid as int) < mid as int,
                        (x as int) / (mid as int) >= 0,
                        mid >= 1;
            }
            hi = mid - 1;
        }
    }
    proof {
        lemma_sqrt_floor_unique(x as nat, lo as nat);
    }
    lo as u64
}

pub proof fn lemma_ret_ppm_bound(prev: int, cur: int)
    requires
        1 <= prev <= AMOUNT_MAX,
        1 <= cur <= AMOUNT_MAX,
    ensures
        -(RET_PPM_BOUND as int) <= ret_ppm(prev, cur) <= RET_PPM_BOUND as int,
        cur >= prev ==> ret_ppm(prev, cur) >= 0,
        cur < prev ==> ret_ppm(prev, cur) <= 0,
{
    let scale = PPM_SCALE as int;
    if cur >= prev {
        let num = (cur - prev) * scale;
        assert(0 <= num <= 100_000_000_000_000_000) by (nonlinear_arith)
            requires
                0 <= cur - prev <= 100_000_000_000,
                scale == 1_000_000,
                num == (cur - prev) * scale;
        vstd::arithmetic::div_mod::lemma_div_pos_is_pos(num, prev);
        vstd::arithmetic::div_mod::lemma_div_nonincreasing(num, prev);
    } else {
        let num = (prev - cur) * scale;
        assert(0 <= num <= 100_000_000_000_000_000) by (nonlinear_arith)
            requires
                0 <= prev - cur <= 100_000_000_000,
                scale == 1_000_000,
                num == (prev - cur) * scale;
        vstd::arithmetic::div_mod::lemma_div_pos_is_pos(num, prev);
        vstd::arithmetic::div_mod::lemma_div_nonincreasing(num, prev);
    }
}

/// All returns of a well-formed window are bounded by `RET_PPM_BOUND`.
pub proof fn lemma_returns_bounded(s: Seq<u64>)
    requires
        samples_ok(s),
        s.len() >= 1,
    ensures
        forall|i: int|
            0 <= i < returns_of(to_int_seq(s)).len() ==> -(RET_PPM_BOUND as int)
                <= #[trigger] returns_of(to_int_seq(s))[i] <= RET_PPM_BOUND as int,
{
    let ints = to_int_seq(s);
    let rets = returns_of(ints);
    assert forall|i: int| 0 <= i < rets.len() implies -(RET_PPM_BOUND as int)
        <= #[trigger] rets[i] <= RET_PPM_BOUND as int by {
        lemma_ret_ppm_bound(ints[i], ints[i + 1]);
    }
}

/// A return vector seen as mathematical integers.
pub open spec fn rets_ints(s: Seq<i64>) -> Seq<int> {
    s.map_values(|v: i64| v as int)
}

/// Every return within the magnitude a valid window can produce.
pub open spec fn rets_bounded(s: Seq<i64>) -> bool {
    forall|i: int|
        0 <= i < s.len() ==> -100_000_000_000_000_000 <= #[trigger] s[i]
            <= 100_000_000_000_000_000
}

/// The consecutive-sample returns of a window, computed exactly.
pub fn compute_returns(samples: &Vec<u64>) -> (rets: Vec<i64>)
    requires
        2 <= samples@.len() <= MAX_STAT_SAMPLES,
        samples_ok(samples@),
    ensures
        rets@.len() == samples@.len() - 1,
        rets_ints(rets@) == returns_of(to_int_seq(samples@)),
        rets_bounded(rets@),
{
    let ghost ints = to_int_seq(samples@);
    let ghost grets = returns_of(ints);
    proof {
        lemma_returns_bounded(samples@);
    }
    let n = samples.len();
    let mut rets: Vec<i64> = Vec::new();
    let mut k: usize = 1;
    while k < n
        invariant
            1 <= k <= n,
            n == samples@.len(),
            2 <= n <= MAX_STAT_SAMPLES,
            samples_ok(samples@),
            ints == to_int_seq(samples@),
            grets == returns_of(ints),
            rets@.len() == k - 1,
            forall|i: int| 0 <= i < k - 1 ==> #[trigger] rets@[i] as int == grets[i],
            forall|i: int|
                0 <= i < k - 1 ==> -100_000_000_000_000_000 <= #[trigger] rets@[i]
                    <= 100_000_000_000_000_000,
        decreases n - k,
    {
        let prev = samples[k - 1];
        let cur = samples[k];
        proof {
            lemma_ret_ppm_bound(prev as int, cur as int);
        }
        let v: i64 = if cur >= prev {
            let num: u128 = (cur - prev) as u128 * PPM_SCALE as u128;
            proof {
                vstd::arithmetic::div_mod::lemma_div_pos_is_pos(num as int, prev as int);
                vstd::arithmetic::div_mod::lemma_div_nonincreasing(num as int, prev as int);
            }
            (num / prev as u128) as i64
        } else {
            let num: u128 = (prev - cur) as u128 * PPM_SCALE as u128;
            proof {
                vstd::arithmetic::div_mod::lemma_div_pos_is_pos(num as int, prev as int);
                vstd::arithmetic::div_mod::lemma_div_nonincreasing(num as int, prev as int);
            }
            -((num / prev as u128) as i64)
        };
        proof {
            assert(v as int == ret_ppm(ints[k - 1], ints[k as int]));
            assert(grets[k - 1] == ret_ppm(ints[k - 1], ints[k as int]));
        }
        rets.push(v);
        k = k + 1;
    }
    proof {
        assert(rets_ints(rets@) =~= grets);
    }
    rets
}

/// Annualized volatility of a window of samples, in ppm: the exact
/// fixed-point evaluation of `annualized_vol_of` on the window's returns.
pub fn window_volatility_ppm(samples: &Vec<u64>) -> (r: u64)
    requires
        2 <= samples@.len() <= MAX_STAT_SAMPLES,
        samples_ok(samples@),
    ensures
        r == annualized_vol_of(returns_of(to_int_seq(samples@))),
        r <= 3_200_000_000_000_000_000,
{
    let rets = compute_returns(samples);
    let variance = variance_of_returns(&rets);
    proof {
        assert(variance as int * ANNUALIZATION as int
            <= 10_080_000_000_000_000_000_000_000_000_000_000_000) by (nonlinear_arith)
            requires
                0 <= variance as int <= 40_000_000_000_000_000_000_000_000_000_000_000,
                ANNUALIZATION == 252u64;
    }
    let annualized: u128 = variance * ANNUALIZATION as u128;
    let r = isqrt_u128(annualized);
    proof {
        lemma_sqrt_floor_bounds(annualized as nat);
        assert(r <= 3_200_000_000_000_000_000) by (nonlinear_arith)
            requires
                r as int * r as int <= annualized as int,
                annualized <= 10_080_000_000_000_000_000_000_000_000_000_000_000;
    }
    r
}

/// Exact evaluation of `variance_ppm2` on an explicit return vector.
pub fn variance_of_returns(rets: &Vec<i64>) -> (v: u128)
    requires
        1 <= rets@.len() < MAX_STAT_SAMPLES,
        rets_bounded(rets@),
    ensures
        v == variance_ppm2(rets_ints(rets@)),
        v <= 40_000_000_000_000_000_000_000_000_000_000_000,
{
    let ghost grets = rets_ints(rets@);
    let m = rets.len();

    // Sum of the returns. Each return is bounded by 10^17 in magnitude,
    // so the running sum stays within 10^20.
    let mut sum: i128 = 0;
    let mut i: usize = 0;
    while i < m
        invariant
            0 <= i <= m,
            m == rets@.len(),
            grets.len() == m,
            1 <= m < MAX_STAT_SAMPLES,
            forall|j: int| 0 <= j < m ==> #[trigger] rets@[j] as int == grets[j],
            forall|j: int|
                0 <= j < m ==> -100_000_000_000_000_000 <= #[trigger] grets[j]
                    <= 100_000_000_000_000_000,
            sum as int == sum_int(grets.take(i as int)),
            -(i as int * 100_000_000_000_000_000) <= sum as int <= i as int
                * 100_000_000_000_000_000,
        decreases m - i,
    {
        proof {
            lemma_sum_int_take_snoc(grets, i as int);
        }
        sum = sum + rets[i] as i128;
        i = i + 1;
    }
    proof {
        assert(grets.take(m as int) =~= grets);
    }

    // Truncated mean; its magnitude never exceeds the return bound.
    let mean: i128 = if sum >= 0 {
        proof {
            vstd::arithmetic::div_mod::lemma_div_pos_is_pos(sum as int, m as int);
            vstd::arithmetic::div_mod::lemma_div_is_ordered(
                sum as int,
                m as int * 100_000_000_000_000_000,
                m as int,
            );
            vstd::arithmetic::div_mod::lemma_div_multiples_vanish(
                100_000_000_000_000_000,
                m as int,
            );
        }
        ((sum as u128) / (m as u128)) as i128
    } else {
        proof {
            vstd::arithmetic::div_mod::lemma_div_pos_is_pos(-(sum as int), m as int);
            vstd::arithmetic::div_mod::lemma_div_is_ordered(
                -(sum as int),
                m as int * 100_000_000_000_000_000,
                m as int,
            );
            vstd::arithmetic::div_mod::lemma_div_multiples_vanish(
                100_000_000_000_000_000,
                m as int,
            );
        }
        -((((-sum) as u128) / (m as u128)) as i128)
    };
    proof {
        assert(mean as int == mean_of(grets));
        assert(-100_000_000_000_000_000 <= mean as int <= 100_000_000_000_000_000);
    }

    // Sum of squared deviations from the mean. A deviation is at most
    // 2 * 10^17 in magnitude, its square at most 4 * 10^34, and the sum
    // of at most 1000 of them stays far below the u128 limit.
    let ghost gdevs = dev_sqs(grets);
    let mut devsum: u128 = 0;
    let mut k: usize = 0;
    while k < m
        invariant
            0 <= k <= m,
            m == rets@.len(),
            grets.len() == m,
            1 <= m < MAX_STAT_SAMPLES,
            forall|j: int| 0 <= j < m ==> #[trigger] rets@[j] as int == grets[j],
            forall|j: int|
                0 <= j < m ==> -100_000_000_000_000_000 <= #[trigger] grets[j]
                    <= 100_000_000_000_000_000,
            -100_000_000_000_000_000 <= mean as int <= 100_000_000_000_000_000,
            mean as int == mean_of(grets),
            gdevs == dev_sqs(grets),
            devsum as int == sum_int(gdevs.take(k as int)),
            devsum as int <= k as int * 40_000_000_000_000_000_000_000_000_000_000_000,
        decreases m - k,
    {
        let d: i128 = rets[k] as i128 - mean;
        proof {
            assert(0 <= d as int * d as int
                <= 40_000_000_000_000_000_000_000_000_000_000_000) by (nonlinear_arith)
                requires
                    -200_000_000_000_000_000 <= d as int <= 200_000_000_000_000_000;
            assert(gdevs[k as int] == d as int * d as int);
            lemma_sum_int_take_snoc(gdevs, k as int);
        }
        let sq: u128 = (d * d) as u128;
        devsum = devsum + sq;
        k = k + 1;
    }
    proof {
        assert(gdevs.take(m as int) =~= gdevs);
    }

    // Floored variance, annualized, then the floor square root.
    let variance: u128 = devsum / m as u128;
    proof {
        vstd::arithmetic::div_mod::lemma_div_pos_is_pos(devsum as int, m as int);
        vstd::arithmetic::div_mod::lemma_div_is_ordered(
            devsum as int,
            m as int * 40_000_000_000_000_000_000_000_000_000_000_000,
            m as int,
        );
        vstd::arithmetic::div_mod::lemma_div_multiples_vanish(
            40_000_000_000_000_000_000_000_000_000_000_000,
            m as int,
        );
        assert(variance as int == variance_ppm2(grets));
    }
    variance
}

} // verus!
