//! The five-level score bands of every indicator.
//!
//! Each band is decided on an exact fraction `num / den` (with `den > 0`) of
//! the indicator's metric, so no rounding can move a value across a band edge.
use vstd::prelude::*;
use crate::fixed::{SCALE, WIDE_LIMIT};

verus! {

/// A score is one of the five levels -2, -1, 0, +1, +2.
pub open spec fn is_score(s: int) -> bool {
    -2 <= s <= 2
}

pub open spec fn frac_ok(num: int, den: int) -> bool {
    &&& 1 <= den <= WIDE_LIMIT
    &&& -WIDE_LIMIT <= num <= WIDE_LIMIT
}

/// Band of a moving-average style cross-over difference (EMA, SMA, Ichimoku),
/// the difference being `num / den` fixed-point price units:
/// above 2 gives +2, above 0.5 gives +1, within ±0.5 gives 0, below -2 gives -2,
/// and the rest -1.
pub open spec fn cross_band(num: int, den: int) -> int {
    if num > 2 * SCALE * den {
        2
    } else if 2 * num > SCALE * den {
        1
    } else if 2 * num >= -(SCALE * den) {
        0
    } else if num < -(2 * SCALE * den) {
        -2
    } else {
        -1
    }
}

/// Band of an ADX reading of `num / den` points.
pub open spec fn adx_band(num: int, den: int) -> int {
    if num >= 50 * den {
        2
    } else if num >= 30 * den {
        1
    } else if num >= 20 * den {
        0
    } else if num >= 10 * den {
        -1
    } else {
        -2
    }
}

/// Band of a rate of change of `num / den` percent.
pub open spec fn roc_band(num: int, den: int) -> int {
    if num > 10 * den {
        2
    } else if num > 3 * den {
        1
    } else if num >= -3 * den {
        0
    } else if num < -10 * den {
        -2
    } else {
        -1
    }
}

/// Band of a stochastic %K of `num / den` percent.
pub open spec fn stochastics_band(num: int, den: int) -> int {
    if num >= 90 * den {
        -2
    } else if num >= 80 * den {
        -1
    } else if num <= 10 * den {
        2
    } else if num <= 20 * den {
        1
    } else {
        0
    }
}

/// Band of the close against the Bollinger bands: a breach needs a strict
/// inequality, and a breach by more than 2% of the band counts double.
pub open spec fn bollinger_band(close: int, upper: int, lower: int) -> int {
    if 100 * close > 102 * upper {
        -2
    } else if close > upper {
        -1
    } else if 100 * close < 98 * lower {
        2
    } else if close < lower {
        1
    } else {
        0
    }
}

/// Band of a close-minus-VWAP difference of `num / den` fixed-point price units.
pub open spec fn vwap_band(num: int, den: int) -> int {
    if num >= 4 * SCALE * den {
        2
    } else if num >= SCALE * den {
        1
    } else if num <= -(4 * SCALE * den) {
        -2
    } else if num <= -(SCALE * den) {
        -1
    } else {
        0
    }
}

/// Half-width of the neutral zone around the 50% retracement, in fixed point.
pub const FIB_EPS: i64 = 5_000;

/// Band of the close against the Fibonacci retracement levels, all values
/// multiplied by 1000 so that the levels are exact integers.
pub open spec fn fib_band_scaled(c: int, f38: int, f50: int, f62: int) -> int {
    let e = 1000 * FIB_EPS;
    if c - f50 <= e && f50 - c <= e {
        0
    } else if c > f38 {
        2
    } else if f50 + e < c && c < f38 {
        1
    } else if c < f62 {
        -2
    } else if f62 < c && c < f50 - e {
        -1
    } else if c > f50 {
        1
    } else {
        -1
    }
}

/// The three retracement levels times 1000 of a window with the given high
/// and low: 38.2%, 50% and 61.8% of the span below the high.
pub open spec fn fib_level_38(high: int, low: int) -> int {
    1000 * high - 382 * (high - low)
}

pub open spec fn fib_level_50(high: int, low: int) -> int {
    1000 * high - 500 * (high - low)
}

pub open spec fn fib_level_62(high: int, low: int) -> int {
    1000 * high - 618 * (high - low)
}

/// Fibonacci band of `close` in a window of the given high and low.
pub open spec fn fib_band(close: int, high: int, low: int) -> int {
    fib_band_scaled(
        1000 * close,
        fib_level_38(high, low),
        fib_level_50(high, low),
        fib_level_62(high, low),
    )
}

pub fn cross_band_score(num: i128, den: i128) -> (r: i8)
    requires
        frac_ok(num as int, den as int),
    ensures
        r as int == cross_band(num as int, den as int),
        is_score(r as int),
{
    if num > 20_000 * den {
        2
    } else if 2 * num > 10_000 * den {
        1
    } else if 2 * num >= -(10_000 * den) {
        0
    } else if num < -(20_000 * den) {
        -2
    } else {
        -1
    }
}

pub fn adx_band_score(num: i128, den: i128) -> (r: i8)
    requires
        frac_ok(num as int, den as int),
    ensures
        r as int == adx_band(num as int, den as int),
        is_score(r as int),
{
    if num >= 50 * den {
        2
    } else if num >= 30 * den {
        1
    } else if num >= 20 * den {
        0
    } else if num >= 10 * den {
        -1
    } else {
        -2
    }
}

pub fn roc_band_score(num: i128, den: i128) -> (r: i8)
    requires
        frac_ok(num as int, den as int),
    ensures
        r as int == roc_band(num as int, den as int),
        is_score(r as int),
{
    if num > 10 * den {
        2
    } else if num > 3 * den {
        1
    } else if num >= -3 * den {
        0
    } else if num < -10 * den {
        -2
    } else {
        -1
    }
}

pub fn stochastics_band_score(num: i128, den: i128) -> (r: i8)
    requires
        frac_ok(num as int, den as int),
    ensures
        r as int == stochastics_band(num as int, den as int),
        is_score(r as int),
{
    if num >= 90 * den {
        -2
    } else if num >= 80 * den {
        -1
    } else if num <= 10 * den {
        2
    } else if num <= 20 * den {
        1
    } else {
        0
    }
}

pub fn bollinger_band_score(close: i128, upper: i128, lower: i128) -> (r: i8)
    requires
        -WIDE_LIMIT <= close <= WIDE_LIMIT,
        -WIDE_LIMIT <= upper <= WIDE_LIMIT,
        -WIDE_LIMIT <= lower <= WIDE_LIMIT,
    ensures
        r as int == bollinger_band(close as int, upper as int, lower as int),
        is_score(r as int),
{
    if 100 * close > 102 * upper {
        -2
    } else if close > upper {
        -1
    } else if 100 * close < 98 * lower {
        2
    } else if close < lower {
        1
    } else {
        0
    }
}

pub fn vwap_band_score(num: i128, den: i128) -> (r: i8)
    requires
        frac_ok(num as int, den as int),
    ensures
        r as int == vwap_band(num as int, den as int),
        is_score(r as int),
{
    if num >= 40_000 * den {
        2
    } else if num >= 10_000 * den {
        1
    } else if num <= -(40_000 * den) {
        -2
    } else if num <= -(10_000 * den) {
        -1
    } else {
        0
    }
}

pub fn fib_band_score(c: i128, f38: i128, f50: i128, f62: i128) -> (r: i8)
    requires
        -WIDE_LIMIT <= c <= WIDE_LIMIT,
        -WIDE_LIMIT <= f38 <= WIDE_LIMIT,
        -WIDE_LIMIT <= f50 <= WIDE_LIMIT,
        -WIDE_LIMIT <= f62 <= WIDE_LIMIT,
    ensures
        r as int == fib_band_scaled(c as int, f38 as int, f50 as int, f62 as int),
        is_score(r as int),
{
    let e = 1000 * FIB_EPS as i128;
    if c - f50 <= e && f50 - c <= e {
        0
    } else if c > f38 {
        2
    } else if f50 + e < c && c < f38 {
        1
    } else if c < f62 {
        -2
    } else if f62 < c && c < f50 - e {
        -1
    } else if c > f50 {
        1
    } else {
        -1
    }
}

/// A larger cross-over difference never gives a lower band.
pub proof fn lemma_cross_band_monotonic(num1: int, num2: int, den: int)
    requires
        den > 0,
        num1 <= num2,
    ensures
        cross_band(num1, den) <= cross_band(num2, den),
{
}

/// A close exactly at the 50% retracement level scores 0.
pub proof fn lemma_fib_at_midpoint_is_neutral(close: int, high: int, low: int)
    requires
        high > low,
        1000 * close == fib_level_50(high, low),
    ensures
        fib_band(close, high, low) == 0,
{
}

/// A close above the 38.2% level, and outside the neutral zone around the
/// 50% level, scores +2.
pub proof fn lemma_fib_above_38_is_strong(close: int, high: int, low: int)
    requires
        high > low,
        1000 * close > fib_level_38(high, low),
        1000 * close - fib_level_50(high, low) > 1000 * FIB_EPS,
    ensures
        fib_band(close, high, low) == 2,
{
}

} // verus!
