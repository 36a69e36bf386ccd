//! The nine extension evaluators.
//!
//! Each is a pure function of the bar series (and, for EMA and Bollinger, of
//! the averages computed from it by the technical-analysis library) that
//! either yields a reading with its score or reports that the series is too
//! short.
use vstd::prelude::*;
use crate::bars::{
    max_int, bars_wf, lemma_window_bounds, max_high, min_low, sum_close, sum_typical3, window_close_sum,
    window_high, window_low, window_typical3_sum, Bar,
};
use crate::fixed::{
    abs, lemma_round_div_at_most, round_div, round_div_exec, round_frac, round_frac_exec, SCALE,
    VALUE_LIMIT,
};
use crate::score::{
    is_score, lemma_cross_band_monotonic,
    adx_band, adx_band_score, stochastics_band, stochastics_band_score, bollinger_band,
    bollinger_band_score, cross_band, cross_band_score, fib_band, fib_band_score,
    fib_level_38, fib_level_50, fib_level_62, roc_band, roc_band_score, vwap_band,
    vwap_band_score,
};

verus! {

/// Why an evaluator produced no reading.
#[derive(Clone, Copy, Debug, PartialEq, Eq, Structural)]
pub enum EvalError {
    /// The series holds `available` bars, fewer than the `required` ones.
    InsufficientData { required: usize, available: usize },
}

/// `Ok(v)` when `len` bars meet the minimum `need`, else the matching error.
pub open spec fn checked<T>(need: nat, len: nat, v: T) -> Result<T, EvalError> {
    if len < need {
        Err(EvalError::InsufficientData { required: need as usize, available: len as usize })
    } else {
        Ok(v)
    }
}

fn insufficient<T>(need: usize, len: usize) -> (r: Result<T, EvalError>)
    requires
        len < need,
    ensures
        r == checked(need as nat, len as nat, arbitrary::<T>()),
{
    Err(EvalError::InsufficientData { required: need, available: len })
}

#[derive(Clone, Copy, Debug, PartialEq, Eq, Structural)]
pub struct EmaReading {
    pub short: i64,
    pub long: i64,
    pub score: i8,
}

#[derive(Clone, Copy, Debug, PartialEq, Eq, Structural)]
pub struct SmaReading {
    pub short: i64,
    pub long: i64,
    pub score: i8,
}

#[derive(Clone, Copy, Debug, PartialEq, Eq, Structural)]
pub struct AdxReading {
    pub adx: i64,
    pub score: i8,
}

#[derive(Clone, Copy, Debug, PartialEq, Eq, Structural)]
pub struct RocReading {
    pub roc: i64,
    pub score: i8,
}

#[derive(Clone, Copy, Debug, PartialEq, Eq, Structural)]
pub struct StochasticsReading {
    pub k: i64,
    pub d: i64,
    pub score: i8,
}

#[derive(Clone, Copy, Debug, PartialEq, Eq, Structural)]
pub struct BollingerReading {
    pub upper: i64,
    pub lower: i64,
    pub percent_b: i64,
    pub bandwidth: i64,
    pub score: i8,
}

#[derive(Clone, Copy, Debug, PartialEq, Eq, Structural)]
pub struct FibLevels {
    pub f38: i64,
    pub f50: i64,
    pub f62: i64,
}

#[derive(Clone, Copy, Debug, PartialEq, Eq, Structural)]
pub struct FibonacciReading {
    /// Absent when the window has no span.
    pub levels: Option<FibLevels>,
    pub score: i8,
}

#[derive(Clone, Copy, Debug, PartialEq, Eq, Structural)]
pub struct VwapReading {
    pub vwap: i64,
    pub score: i8,
}

#[derive(Clone, Copy, Debug, PartialEq, Eq, Structural)]
pub struct IchimokuReading {
    pub tenkan: i64,
    pub kijun: i64,
    pub score: i8,
}

// ---------------------------------------------------------------- EMA

pub open spec fn ema_reading(short: int, long: int) -> EmaReading {
    EmaReading { short: short as i64, long: long as i64, score: cross_band(short - long, 1) as i8 }
}

/// Scores the 5- and 20-period exponential averages of the closes.
pub fn evaluate_ema(bars: &Vec<Bar>, short: i64, long: i64) -> (r: Result<EmaReading, EvalError>)
    requires
        -VALUE_LIMIT <= short <= VALUE_LIMIT,
        -VALUE_LIMIT <= long <= VALUE_LIMIT,
    ensures
        r == checked(20, bars@.len(), ema_reading(short as int, long as int)),
        r is Ok ==> is_score(r->Ok_0.score as int),
{
    if bars.len() < 20 {
        return insufficient(20, bars.len());
    }
    let score = cross_band_score(short as i128 - long as i128, 1);
    Ok(EmaReading { short, long, score })
}

// ---------------------------------------------------------------- SMA

pub open spec fn sma_reading(s: Seq<Bar>) -> SmaReading {
    let n = s.len() as int;
    let s5 = sum_close(s, n - 5, n);
    let s20 = sum_close(s, n - 20, n);
    SmaReading {
        short: round_div(s5, 5) as i64,
        long: round_div(s20, 20) as i64,
        score: cross_band(4 * s5 - s20, 20) as i8,
    }
}

/// Scores the 5-period simple average of the closes against the 20-period one.
pub fn evaluate_sma(bars: &Vec<Bar>) -> (r: Result<SmaReading, EvalError>)
    requires
        bars_wf(bars@),
    ensures
        r == checked(20, bars@.len(), sma_reading(bars@)),
        r is Ok ==> is_score(r->Ok_0.score as int),
{
    let n = bars.len();
    if n < 20 {
        return insufficient(20, n);
    }
    let s5 = window_close_sum(bars, n - 5, n);
    let s20 = window_close_sum(bars, n - 20, n);
    let short = round_div_exec(s5, 5);
    let long = round_div_exec(s20, 20);
    let score = cross_band_score(4 * s5 - s20, 20);
    Ok(SmaReading { short: short as i64, long: long as i64, score })
}

// ---------------------------------------------------------------- ROC

pub open spec fn roc_reading(s: Seq<Bar>) -> RocReading {
    let n = s.len() as int;
    let p = s[n - 11].close as int;
    let c = s[n - 1].close as int;
    if p == 0 {
        RocReading { roc: 0, score: 0 }
    } else {
        RocReading {
            roc: round_div(100 * SCALE * (c - p), p) as i64,
            score: roc_band(100 * (c - p), p) as i8,
        }
    }
}

/// Scores the 10-period rate of change of the close, in percent; a zero
/// base close is neutral.
pub fn evaluate_roc(bars: &Vec<Bar>) -> (r: Result<RocReading, EvalError>)
    requires
        bars_wf(bars@),
    ensures
        r == checked(11, bars@.len(), roc_reading(bars@)),
        r is Ok ==> is_score(r->Ok_0.score as int),
{
    let n = bars.len();
    if n < 11 {
        return insufficient(11, n);
    }
    assert(bars@[n - 11].wf() && bars@[n - 1].wf());
    let p = bars[n - 11].close as i128;
    let c = bars[n - 1].close as i128;
    if p == 0 {
        return Ok(RocReading { roc: 0, score: 0 });
    }
    let roc = round_div_exec(1_000_000 * (c - p), p);
    let score = roc_band_score(100 * (c - p), p);
    Ok(RocReading { roc: roc as i64, score })
}

// ---------------------------------------------------------------- VWAP

pub open spec fn vwap_reading(s: Seq<Bar>) -> VwapReading {
    let n = s.len() as int;
    let t = sum_typical3(s, n - 14, n);
    let c = s[n - 1].close as int;
    VwapReading { vwap: round_div(t, 42) as i64, score: vwap_band(42 * c - t, 42) as i8 }
}

/// Scores the close against the 14-period average of the typical price
/// (high + low + close) / 3.
pub fn evaluate_vwap(bars: &Vec<Bar>) -> (r: Result<VwapReading, EvalError>)
    requires
        bars_wf(bars@),
    ensures
        r == checked(14, bars@.len(), vwap_reading(bars@)),
        r is Ok ==> is_score(r->Ok_0.score as int),
{
    let n = bars.len();
    if n < 14 {
        return insufficient(14, n);
    }
    assert(bars@[n - 1].wf());
    let t = window_typical3_sum(bars, n - 14, n);
    let c = bars[n - 1].close as i128;
    let vwap = round_div_exec(t, 42);
    let score = vwap_band_score(42 * c - t, 42);
    Ok(VwapReading { vwap: vwap as i64, score })
}

// ---------------------------------------------------------------- Ichimoku

pub open spec fn ichimoku_reading(s: Seq<Bar>) -> IchimokuReading {
    let n = s.len() as int;
    let mid9 = max_high(s, n - 9, n) + min_low(s, n - 9, n);
    let mid26 = max_high(s, n - 26, n) + min_low(s, n - 26, n);
    IchimokuReading {
        tenkan: round_div(mid9, 2) as i64,
        kijun: round_div(mid26, 2) as i64,
        score: cross_band(mid9 - mid26, 2) as i8,
    }
}

/// Scores the conversion line (9-period mid of high and low) against the
/// base line (26-period mid).
pub fn evaluate_ichimoku(bars: &Vec<Bar>) -> (r: Result<IchimokuReading, EvalError>)
    requires
        bars_wf(bars@),
    ensures
        r == checked(26, bars@.len(), ichimoku_reading(bars@)),
        r is Ok ==> is_score(r->Ok_0.score as int),
{
    let n = bars.len();
    if n < 26 {
        return insufficient(26, n);
    }
    proof {
        lemma_window_bounds(bars@, n - 9, n as int);
        lemma_window_bounds(bars@, n - 26, n as int);
    }
    let mid9 = window_high(bars, n - 9, n) as i128 + window_low(bars, n - 9, n) as i128;
    let mid26 = window_high(bars, n - 26, n) as i128 + window_low(bars, n - 26, n) as i128;
    let tenkan = round_div_exec(mid9, 2);
    let kijun = round_div_exec(mid26, 2);
    let score = cross_band_score(mid9 - mid26, 2);
    Ok(IchimokuReading { tenkan: tenkan as i64, kijun: kijun as i64, score })
}

// ---------------------------------------------------------------- Bollinger

pub open spec fn bollinger_reading(s: Seq<Bar>, upper: int, lower: int) -> BollingerReading {
    let c = s[s.len() - 1].close as int;
    BollingerReading {
        upper: upper as i64,
        lower: lower as i64,
        percent_b: round_frac(SCALE * (c - lower), upper - lower) as i64,
        bandwidth: round_frac(200 * SCALE * (upper - lower), upper + lower) as i64,
        score: bollinger_band(c, upper, lower) as i8,
    }
}

/// Scores the close against the 20-period, 2-sigma Bollinger bands; %B is a
/// fraction and the bandwidth a percentage of the middle line, both fixed
/// point, and each is zero when its denominator is.
pub fn evaluate_bollinger(bars: &Vec<Bar>, upper: i64, lower: i64) -> (r: Result<
    BollingerReading,
    EvalError,
>)
    requires
        bars_wf(bars@),
        -VALUE_LIMIT <= upper <= VALUE_LIMIT,
        -VALUE_LIMIT <= lower <= VALUE_LIMIT,
    ensures
        r == checked(20, bars@.len(), bollinger_reading(bars@, upper as int, lower as int)),
        r is Ok ==> is_score(r->Ok_0.score as int),
{
    let n = bars.len();
    if n < 20 {
        return insufficient(20, n);
    }
    assert(bars@[n - 1].wf());
    let c = bars[n - 1].close as i128;
    let u = upper as i128;
    let l = lower as i128;
    let percent_b = round_frac_exec(10_000 * (c - l), u - l);
    let bandwidth = round_frac_exec(2_000_000 * (u - l), u + l);
    let score = bollinger_band_score(c, u, l);
    Ok(BollingerReading {
        upper,
        lower,
        percent_b: percent_b as i64,
        bandwidth: bandwidth as i64,
        score,
    })
}

// ---------------------------------------------------------------- Fibonacci

pub open spec fn fibonacci_reading(s: Seq<Bar>) -> FibonacciReading {
    let n = s.len() as int;
    let high = max_high(s, 0, n);
    let low = min_low(s, 0, n);
    if high <= low {
        FibonacciReading { levels: None, score: 0 }
    } else {
        FibonacciReading {
            levels: Some(
                FibLevels {
                    f38: round_div(fib_level_38(high, low), 1000) as i64,
                    f50: round_div(fib_level_50(high, low), 1000) as i64,
                    f62: round_div(fib_level_62(high, low), 1000) as i64,
                },
            ),
            score: fib_band(s[n - 1].close as int, high, low) as i8,
        }
    }
}

/// Scores the close against the retracement levels of the whole window; a
/// window without span is neutral and has no levels.
pub fn evaluate_fibonacci(bars: &Vec<Bar>) -> (r: Result<FibonacciReading, EvalError>)
    requires
        bars_wf(bars@),
    ensures
        r == checked(2, bars@.len(), fibonacci_reading(bars@)),
        r is Ok ==> is_score(r->Ok_0.score as int),
{
    let n = bars.len();
    if n < 2 {
        return insufficient(2, n);
    }
    proof {
        lemma_window_bounds(bars@, 0, n as int);
    }
    assert(bars@[n - 1].wf());
    let high = window_high(bars, 0, n) as i128;
    let low = window_low(bars, 0, n) as i128;
    if high <= low {
        return Ok(FibonacciReading { levels: None, score: 0 });
    }
    let span = high - low;
    let f38 = 1000 * high - 382 * span;
    let f50 = 1000 * high - 500 * span;
    let f62 = 1000 * high - 618 * span;
    let c = bars[n - 1].close as i128;
    let score = fib_band_score(1000 * c, f38, f50, f62);
    let r38 = round_div_exec(f38, 1000);
    let r50 = round_div_exec(f50, 1000);
    let r62 = round_div_exec(f62, 1000);
    proof {
        lemma_round_div_at_most(f38 as int, 1000, high as int);
        lemma_round_div_at_most(f50 as int, 1000, high as int);
        lemma_round_div_at_most(f62 as int, 1000, high as int);
    }
    Ok(FibonacciReading {
        levels: Some(FibLevels { f38: r38 as i64, f50: r50 as i64, f62: r62 as i64 }),
        score,
    })
}

// ---------------------------------------------------------------- ADX

/// True range of bar `i` against the close of bar `i - 1`.
pub open spec fn true_range(s: Seq<Bar>, i: int) -> int {
    let h = s[i].high as int;
    let l = s[i].low as int;
    let pc = s[i - 1].close as int;
    max_int(h - l, max_int(abs(h - pc), abs(l - pc)))
}

/// Upward directional movement of bar `i`.
pub open spec fn plus_dm(s: Seq<Bar>, i: int) -> int {
    let up = s[i].high - s[i - 1].high;
    let down = s[i - 1].low - s[i].low;
    if up > down && up > 0 {
        up
    } else {
        0
    }
}

/// Downward directional movement of bar `i`.
pub open spec fn minus_dm(s: Seq<Bar>, i: int) -> int {
    let up = s[i].high - s[i - 1].high;
    let down = s[i - 1].low - s[i].low;
    if down > up && down > 0 {
        down
    } else {
        0
    }
}

pub open spec fn sum_true_range(s: Seq<Bar>, lo: int, hi: int) -> int
    decreases hi - lo,
{
    if hi <= lo {
        0
    } else {
        sum_true_range(s, lo, hi - 1) + true_range(s, hi - 1)
    }
}

pub open spec fn sum_plus_dm(s: Seq<Bar>, lo: int, hi: int) -> int
    decreases hi - lo,
{
    if hi <= lo {
        0
    } else {
        sum_plus_dm(s, lo, hi - 1) + plus_dm(s, hi - 1)
    }
}

pub open spec fn sum_minus_dm(s: Seq<Bar>, lo: int, hi: int) -> int
    decreases hi - lo,
{
    if hi <= lo {
        0
    } else {
        sum_minus_dm(s, lo, hi - 1) + minus_dm(s, hi - 1)
    }
}

/// The single-window directional index over the last 14 periods:
/// 100 * |+DM - -DM| / (+DM + -DM), the true-range average cancelling out.
/// With no range or no movement the value is 0.
pub open spec fn adx_reading(s: Seq<Bar>) -> AdxReading {
    let n = s.len() as int;
    let t = sum_true_range(s, n - 14, n);
    let p = sum_plus_dm(s, n - 14, n);
    let m = sum_minus_dm(s, n - 14, n);
    if t == 0 || p + m == 0 {
        AdxReading { adx: 0, score: adx_band(0, 1) as i8 }
    } else {
        AdxReading {
            adx: round_div(100 * SCALE * abs(p - m), p + m) as i64,
            score: adx_band(100 * abs(p - m), p + m) as i8,
        }
    }
}

/// Scores trend strength with the simplified one-window ADX.
pub fn evaluate_adx(bars: &Vec<Bar>) -> (r: Result<AdxReading, EvalError>)
    requires
        bars_wf(bars@),
    ensures
        r == checked(15, bars@.len(), adx_reading(bars@)),
        r is Ok ==> is_score(r->Ok_0.score as int),
{
    let n = bars.len();
    if n < 15 {
        return insufficient(15, n);
    }
    let lo = n - 14;
    let mut t: i128 = 0;
    let mut p: i128 = 0;
    let mut m: i128 = 0;
    let mut i = lo;
    while i < n
        invariant
            n == bars@.len(),
            n >= 15,
            lo == n - 14,
            lo <= i <= n,
            bars_wf(bars@),
            t == sum_true_range(bars@, lo as int, i as int),
            p == sum_plus_dm(bars@, lo as int, i as int),
            m == sum_minus_dm(bars@, lo as int, i as int),
            0 <= t <= (i - lo) * VALUE_LIMIT,
            0 <= p <= (i - lo) * VALUE_LIMIT,
            0 <= m <= (i - lo) * VALUE_LIMIT,
        decreases n - i,
    {
        assert(bars@[i as int].wf() && bars@[i - 1].wf());
        let today = &bars[i];
        let yesterday = &bars[i - 1];
        let h = today.high as i128;
        let l = today.low as i128;
        let pc = yesterday.close as i128;
        let up = h - yesterday.high as i128;
        let down = yesterday.low as i128 - l;
        let hc = if h >= pc {
            h - pc
        } else {
            pc - h
        };
        let lc = if l >= pc {
            l - pc
        } else {
            pc - l
        };
        let wide = if hc >= lc {
            hc
        } else {
            lc
        };
        let tr = if h - l >= wide {
            h - l
        } else {
            wide
        };
        t = t + tr;
        if up > down && up > 0 {
            p = p + up;
        }
        if down > up && down > 0 {
            m = m + down;
        }
        i = i + 1;
    }
    if t == 0 || p + m == 0 {
        return Ok(AdxReading { adx: 0, score: adx_band_score(0, 1) });
    }
    let diff = if p >= m {
        p - m
    } else {
        m - p
    };
    let adx = round_div_exec(1_000_000 * diff, p + m);
    proof {
        lemma_round_div_at_most(1_000_000 * diff, (p + m) as int, 1_000_000);
    }
    let score = adx_band_score(100 * diff, p + m);
    Ok(AdxReading { adx: adx as i64, score })
}

// ---------------------------------------------------------------- Stochastics

/// First bar of the 14-period window that ends at bar `i`.
pub open spec fn stoch_start(i: int) -> int {
    if i + 1 >= 14 {
        i + 1 - 14
    } else {
        0
    }
}

pub open spec fn stoch_high(s: Seq<Bar>, i: int) -> int {
    max_high(s, stoch_start(i), i + 1)
}

pub open spec fn stoch_low(s: Seq<Bar>, i: int) -> int {
    min_low(s, stoch_start(i), i + 1)
}

/// %K at bar `i`, fixed point; 0 when the window has no range.
pub open spec fn stoch_k(s: Seq<Bar>, i: int) -> int {
    let hh = stoch_high(s, i);
    let ll = stoch_low(s, i);
    if hh != ll {
        round_div(100 * SCALE * (s[i].close - ll), hh - ll)
    } else {
        0
    }
}

/// Band of the exact %K at bar `i`.
pub open spec fn stoch_score(s: Seq<Bar>, i: int) -> int {
    let hh = stoch_high(s, i);
    let ll = stoch_low(s, i);
    if hh != ll {
        stochastics_band(100 * (s[i].close - ll), hh - ll)
    } else {
        stochastics_band(0, 1)
    }
}

pub open spec fn stochastics_reading(s: Seq<Bar>) -> StochasticsReading {
    let n = s.len() as int;
    StochasticsReading {
        k: stoch_k(s, n - 1) as i64,
        d: round_div(stoch_k(s, n - 3) + stoch_k(s, n - 2) + stoch_k(s, n - 1), 3) as i64,
        score: stoch_score(s, n - 1) as i8,
    }
}

/// %K at bar `i`, with its score.
fn percent_k(bars: &Vec<Bar>, i: usize) -> (r: (i128, i8))
    requires
        bars_wf(bars@),
        i < bars@.len(),
    ensures
        r.0 == stoch_k(bars@, i as int),
        r.1 as int == stoch_score(bars@, i as int),
        -1_000_000 * VALUE_LIMIT <= r.0 <= 1_000_000 * VALUE_LIMIT,
{
    let n = bars.len();
    assert(i + 1 <= n);
    let start = if i >= 13 {
        i - 13
    } else {
        0
    };
    proof {
        lemma_window_bounds(bars@, start as int, i + 1);
    }
    assert(bars@[i as int].wf());
    let hh = window_high(bars, start, i + 1) as i128;
    let ll = window_low(bars, start, i + 1) as i128;
    if hh != ll {
        let c = bars[i].close as i128;
        let k = round_div_exec(1_000_000 * (c - ll), hh - ll);
        let score = stochastics_band_score(100 * (c - ll), hh - ll);
        (k, score)
    } else {
        (0, stochastics_band_score(0, 1))
    }
}

/// Scores the 14-period stochastic %K; %D is the mean of the last three %K,
/// each first rounded to fixed point.
pub fn evaluate_stochastics(bars: &Vec<Bar>) -> (r: Result<StochasticsReading, EvalError>)
    requires
        bars_wf(bars@),
    ensures
        r == checked(14, bars@.len(), stochastics_reading(bars@)),
        r is Ok ==> is_score(r->Ok_0.score as int),
{
    let n = bars.len();
    if n < 14 {
        return insufficient(14, n);
    }
    let (k1, _) = percent_k(bars, n - 3);
    let (k2, _) = percent_k(bars, n - 2);
    let (k, score) = percent_k(bars, n - 1);
    let d = round_div_exec(k1 + k2 + k, 3);
    Ok(StochasticsReading { k: k as i64, d: d as i64, score })
}

/// The Fibonacci reading depends on the window's high, low and last close
/// alone: two series that agree on them give the same levels and score.
pub proof fn lemma_fibonacci_is_pure(s1: Seq<Bar>, s2: Seq<Bar>)
    requires
        s1.len() >= 2,
        s2.len() >= 2,
        max_high(s1, 0, s1.len() as int) == max_high(s2, 0, s2.len() as int),
        min_low(s1, 0, s1.len() as int) == min_low(s2, 0, s2.len() as int),
        s1[s1.len() - 1].close == s2[s2.len() - 1].close,
    ensures
        fibonacci_reading(s1) == fibonacci_reading(s2),
{
}

/// A larger EMA difference never gives a lower EMA score.
pub proof fn lemma_ema_score_monotonic(short1: int, long1: int, short2: int, long2: int)
    requires
        short1 - long1 <= short2 - long2,
    ensures
        ema_reading(short1, long1).score <= ema_reading(short2, long2).score,
{
    lemma_cross_band_monotonic(short1 - long1, short2 - long2, 1);
}

/// A larger SMA difference (5-period mean minus 20-period mean) never gives
/// a lower SMA score.
pub proof fn lemma_sma_score_monotonic(s1: Seq<Bar>, s2: Seq<Bar>)
    requires
        s1.len() >= 20,
        s2.len() >= 20,
        4 * sum_close(s1, s1.len() - 5, s1.len() as int) - sum_close(s1, s1.len() - 20, s1.len() as int)
            <= 4 * sum_close(s2, s2.len() - 5, s2.len() as int) - sum_close(
            s2,
            s2.len() - 20,
            s2.len() as int,
        ),
    ensures
        sma_reading(s1).score <= sma_reading(s2).score,
{
    let n1 = s1.len() as int;
    let n2 = s2.len() as int;
    lemma_cross_band_monotonic(
        4 * sum_close(s1, n1 - 5, n1) - sum_close(s1, n1 - 20, n1),
        4 * sum_close(s2, n2 - 5, n2) - sum_close(s2, n2 - 20, n2),
        20,
    );
}

/// A larger conversion-minus-base difference never gives a lower Ichimoku score.
pub proof fn lemma_ichimoku_score_monotonic(s1: Seq<Bar>, s2: Seq<Bar>)
    requires
        s1.len() >= 26,
        s2.len() >= 26,
        ({
            let n1 = s1.len() as int;
            let n2 = s2.len() as int;
            max_high(s1, n1 - 9, n1) + min_low(s1, n1 - 9, n1) - max_high(s1, n1 - 26, n1) - min_low(
                s1,
                n1 - 26,
                n1,
            ) <= max_high(s2, n2 - 9, n2) + min_low(s2, n2 - 9, n2) - max_high(s2, n2 - 26, n2)
                - min_low(s2, n2 - 26, n2)
        }),
    ensures
        ichimoku_reading(s1).score <= ichimoku_reading(s2).score,
{
    let n1 = s1.len() as int;
    let n2 = s2.len() as int;
    lemma_cross_band_monotonic(
        max_high(s1, n1 - 9, n1) + min_low(s1, n1 - 9, n1) - (max_high(s1, n1 - 26, n1) + min_low(
            s1,
            n1 - 26,
            n1,
        )),
        max_high(s2, n2 - 9, n2) + min_low(s2, n2 - 9, n2) - (max_high(s2, n2 - 26, n2) + min_low(
            s2,
            n2 - 26,
            n2,
        )),
        2,
    );
}

} // verus!
