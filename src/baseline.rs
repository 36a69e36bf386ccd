//! The MACD + RSI baseline evaluator.
use vstd::prelude::*;
use crate::bars::{bars_wf, Bar};
use crate::extension::{checked, EvalError};
use crate::fixed::{abs, round_div, round_div_exec, SCALE};
use crate::score::is_score;

verus! {

/// RSI(14) and MACD(12, 26, 9) of the closes, latest and one bar earlier,
/// computed by the technical-analysis library; fixed point.
#[derive(Clone, Copy, Debug, PartialEq, Eq, Structural)]
pub struct MomentumInputs {
    pub rsi: i64,
    pub macd: i64,
    pub signal: i64,
    pub prev_macd: i64,
    pub prev_signal: i64,
}

/// Thresholds of the baseline decision table; fixed point.
#[derive(Clone, Copy, Debug, PartialEq, Eq, Structural)]
pub struct BaselineThresholds {
    pub buy_rsi: i64,
    pub sell_rsi: i64,
    pub macd_diff_low: i64,
    pub macd_diff_mid: i64,
    /// Whether a MACD below zero may still count as rising.
    pub macd_minus_ok: bool,
}

/// The baseline decision table, before clamping.
pub open spec fn baseline_table(macd: int, signal: int, rsi: int, th: BaselineThresholds) -> int {
    let up = macd > signal && (macd > 0 || th.macd_minus_ok);
    let down = macd < signal;
    let low = rsi <= th.buy_rsi;
    let high = rsi >= th.sell_rsi;
    let diff = abs(macd - signal);
    if up && high && diff > 100 * SCALE {
        -2
    } else if up && high {
        -1
    } else if down && high {
        -1
    } else if up && low {
        2
    } else if down && low {
        1
    } else if up {
        if diff < th.macd_diff_low {
            1
        } else {
            2
        }
    } else if down {
        if diff < th.macd_diff_low {
            0
        } else {
            -1
        }
    } else {
        0
    }
}

/// The baseline score: the table, with a positive result clamped to 0 when
/// the MACD is below zero and that is not allowed.
pub open spec fn baseline_score(macd: int, signal: int, rsi: int, th: BaselineThresholds) -> int {
    let t = baseline_table(macd, signal, rsi, th);
    if !th.macd_minus_ok && macd < 0 && t > 0 {
        0
    } else {
        t
    }
}

/// Scores the latest MACD, signal and RSI against the thresholds.
pub fn signal_score(macd: i64, signal: i64, rsi: i64, th: &BaselineThresholds) -> (r: i8)
    ensures
        r as int == baseline_score(macd as int, signal as int, rsi as int, *th),
        is_score(r as int),
{
    let m = macd as i128;
    let s = signal as i128;
    let up = m > s && (m > 0 || th.macd_minus_ok);
    let down = m < s;
    let low = rsi <= th.buy_rsi;
    let high = rsi >= th.sell_rsi;
    let diff = if m >= s {
        m - s
    } else {
        s - m
    };
    let table: i8 = if up && high && diff > 1_000_000 {
        -2
    } else if up && high {
        -1
    } else if down && high {
        -1
    } else if up && low {
        2
    } else if down && low {
        1
    } else if up {
        if diff < th.macd_diff_low as i128 {
            1
        } else {
            2
        }
    } else if down {
        if diff < th.macd_diff_low as i128 {
            0
        } else {
            -1
        }
    } else {
        0
    };
    if !th.macd_minus_ok && macd < 0 && table > 0 {
        0
    } else {
        table
    }
}

/// The baseline fields of the ledger.
#[derive(Clone, Copy, Debug, PartialEq, Eq, Structural)]
pub struct BaselineReading {
    pub close: i64,
    pub previous_close: i64,
    pub price_diff: i64,
    /// Change from the previous close, in percent (fixed point); 0 when the
    /// previous close is 0.
    pub price_diff_percent: i64,
    pub rsi: i64,
    pub macd: i64,
    pub signal: i64,
    pub prev_macd: i64,
    pub prev_signal: i64,
    pub signal_score: i8,
}

pub open spec fn baseline_reading(
    s: Seq<Bar>,
    m: MomentumInputs,
    th: BaselineThresholds,
) -> BaselineReading {
    let n = s.len() as int;
    let c = s[n - 1].close as int;
    let p = s[n - 2].close as int;
    BaselineReading {
        close: c as i64,
        previous_close: p as i64,
        price_diff: (c - p) as i64,
        price_diff_percent: if p == 0 {
            0
        } else {
            round_div(100 * SCALE * (c - p), p) as i64
        },
        rsi: m.rsi,
        macd: m.macd,
        signal: m.signal,
        prev_macd: m.prev_macd,
        prev_signal: m.prev_signal,
        signal_score: baseline_score(m.macd as int, m.signal as int, m.rsi as int, th) as i8,
    }
}

/// Evaluates the baseline; it needs at least two bars.
pub fn evaluate_baseline(bars: &Vec<Bar>, m: MomentumInputs, th: &BaselineThresholds) -> (r: Result<
    BaselineReading,
    EvalError,
>)
    requires
        bars_wf(bars@),
    ensures
        r == checked(2, bars@.len(), baseline_reading(bars@, m, *th)),
        r is Ok ==> is_score(r->Ok_0.signal_score as int),
{
    let n = bars.len();
    if n < 2 {
        return Err(EvalError::InsufficientData { required: 2, available: n });
    }
    assert(bars@[n - 1].wf() && bars@[n - 2].wf());
    let c = bars[n - 1].close as i128;
    let p = bars[n - 2].close as i128;
    let pct: i128 = if p == 0 {
        0
    } else {
        round_div_exec(1_000_000 * (c - p), p)
    };
    let score = signal_score(m.macd, m.signal, m.rsi, th);
    Ok(BaselineReading {
        close: c as i64,
        previous_close: p as i64,
        price_diff: (c - p) as i64,
        price_diff_percent: pct as i64,
        rsi: m.rsi,
        macd: m.macd,
        signal: m.signal,
        prev_macd: m.prev_macd,
        prev_signal: m.prev_signal,
        signal_score: score,
    })
}

/// With negative MACD not allowed, a MACD below zero never yields a positive
/// baseline score, whatever the RSI.
pub proof fn lemma_gate_blocks_buy(macd: int, signal: int, rsi: int, th: BaselineThresholds)
    requires
        !th.macd_minus_ok,
        macd < 0,
    ensures
        baseline_score(macd, signal, rsi, th) <= 0,
{
}

} // verus!
