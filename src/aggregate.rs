//! The aggregation engine: one snapshot of total score, total weight and
//! score ratio, computed once from the frozen ledger and the weights.
use vstd::prelude::*;
use crate::fixed::{round_div, round_div_exec, SCALE};
use crate::indicator::ExtensionIndicator;
use crate::ledger::{Ledger, LedgerEntry};
use crate::score::is_score;

verus! {

/// One whole weight, in the fixed-point units of `Weights`.
pub const WEIGHT_UNIT: u32 = 1000;

/// Largest number of enabled indicators an aggregation accepts.
pub const MAX_ENABLED: usize = 1_000_000;

/// The weight of the baseline and of each extension, in thousandths.
#[derive(Clone, Copy, Debug, PartialEq, Eq, Structural)]
pub struct Weights {
    pub basic: u32,
    pub ema: u32,
    pub sma: u32,
    pub bollinger: u32,
    pub roc: u32,
    pub adx: u32,
    pub stochastics: u32,
    pub fibonacci: u32,
    pub vwap: u32,
    pub ichimoku: u32,
}

impl Weights {
    pub open spec fn weight_spec(self, k: ExtensionIndicator) -> u32 {
        match k {
            ExtensionIndicator::Ema => self.ema,
            ExtensionIndicator::Sma => self.sma,
            ExtensionIndicator::Bollinger => self.bollinger,
            ExtensionIndicator::Roc => self.roc,
            ExtensionIndicator::Adx => self.adx,
            ExtensionIndicator::Stochastics => self.stochastics,
            ExtensionIndicator::Fibonacci => self.fibonacci,
            ExtensionIndicator::Vwap => self.vwap,
            ExtensionIndicator::Ichimoku => self.ichimoku,
        }
    }

    /// The weight of an extension indicator.
    pub fn weight_of(&self, k: ExtensionIndicator) -> (r: u32)
        ensures
            r == self.weight_spec(k),
    {
        match k {
            ExtensionIndicator::Ema => self.ema,
            ExtensionIndicator::Sma => self.sma,
            ExtensionIndicator::Bollinger => self.bollinger,
            ExtensionIndicator::Roc => self.roc,
            ExtensionIndicator::Adx => self.adx,
            ExtensionIndicator::Stochastics => self.stochastics,
            ExtensionIndicator::Fibonacci => self.fibonacci,
            ExtensionIndicator::Vwap => self.vwap,
            ExtensionIndicator::Ichimoku => self.ichimoku,
        }
    }
}

/// Sum of the weights of the listed indicators.
pub open spec fn sum_weights(w: Weights, enabled: Seq<ExtensionIndicator>) -> int
    decreases enabled.len(),
{
    if enabled.len() == 0 {
        0
    } else {
        sum_weights(w, enabled.drop_last()) + w.weight_spec(enabled.last())
    }
}

/// Weighted score of one indicator; an indicator without a reading adds 0.
pub open spec fn contribution(w: Weights, e: LedgerEntry, k: ExtensionIndicator) -> int {
    match e.score_spec(k) {
        Some(s) => s * w.weight_spec(k),
        None => 0,
    }
}

/// Sum of the weighted scores of the listed indicators.
pub open spec fn sum_contributions(
    w: Weights,
    e: LedgerEntry,
    enabled: Seq<ExtensionIndicator>,
) -> int
    decreases enabled.len(),
{
    if enabled.len() == 0 {
        0
    } else {
        sum_contributions(w, e, enabled.drop_last()) + contribution(w, e, enabled.last())
    }
}

/// `baseline score * weight_basic + sum of enabled weighted scores`.
pub open spec fn total_score_spec(w: Weights, e: LedgerEntry, enabled: Seq<ExtensionIndicator>) -> int {
    e.baseline.signal_score * w.basic + sum_contributions(w, e, enabled)
}

/// `2 * (weight_basic + sum of the weights of the enabled indicators)`.
pub open spec fn total_weight_spec(w: Weights, enabled: Seq<ExtensionIndicator>) -> int {
    2 * (w.basic + sum_weights(w, enabled))
}

/// The score ratio as the exact fraction `num / den`, with `den > 0`.
#[derive(Clone, Copy, Debug, PartialEq, Eq, Structural)]
pub struct ScoreRatio {
    pub num: i64,
    pub den: i64,
}

/// `total_score / total_weight`, or 0 when the total weight is 0.
pub open spec fn ratio_spec(total_score: int, total_weight: int) -> ScoreRatio {
    if total_weight > 0 {
        ScoreRatio { num: total_score as i64, den: total_weight as i64 }
    } else {
        ScoreRatio { num: 0, den: 1 }
    }
}

impl ScoreRatio {
    /// The ratio in fixed point, rounded.
    pub fn fixed(&self) -> (r: i64)
        requires
            self.den > 0,
            -self.den <= self.num <= self.den,
        ensures
            r == round_div(SCALE * self.num, self.den as int),
            -SCALE <= r <= SCALE,
    {
        let n = 10_000 * self.num as i128;
        proof {
            if n >= 0 {
                crate::fixed::lemma_round_div_at_most(n as int, self.den as int, 10_000);
            } else {
                crate::fixed::lemma_round_div_at_most(-n, self.den as int, 10_000);
            }
        }
        round_div_exec(n, self.den as i128) as i64
    }

    /// The ratio as a whole percentage, rounded half away from zero.
    pub fn percent(&self) -> (r: i64)
        requires
            self.den > 0,
            -self.den <= self.num <= self.den,
        ensures
            r == round_div(100 * self.num, self.den as int),
            -100 <= r <= 100,
    {
        let n = 100 * self.num as i128;
        proof {
            if n >= 0 {
                crate::fixed::lemma_round_div_at_most(n as int, self.den as int, 100);
            } else {
                crate::fixed::lemma_round_div_at_most(-n, self.den as int, 100);
            }
        }
        round_div_exec(n, self.den as i128) as i64
    }
}

/// The one aggregate of a run.
#[derive(Clone, Copy, Debug, PartialEq, Eq, Structural)]
pub struct FinalScoreSnapshot {
    /// Weighted score sum, in thousandths.
    pub total_score: i64,
    /// Twice the sum of the active weights, in thousandths.
    pub total_weight: i64,
    pub score_ratio: ScoreRatio,
}

pub open spec fn snapshot_spec(
    w: Weights,
    e: LedgerEntry,
    enabled: Seq<ExtensionIndicator>,
) -> FinalScoreSnapshot {
    let ts = total_score_spec(w, e, enabled);
    let tw = total_weight_spec(w, enabled);
    FinalScoreSnapshot {
        total_score: ts as i64,
        total_weight: tw as i64,
        score_ratio: ratio_spec(ts, tw),
    }
}

pub proof fn lemma_weighted_score_bounds(s: int, w: int)
    requires
        is_score(s),
        w >= 0,
    ensures
        -2 * w <= s * w <= 2 * w,
{
    assert(-2 * w <= s * w <= 2 * w) by (nonlinear_arith)
        requires
            -2 <= s <= 2,
            w >= 0,
    ;
}

pub proof fn lemma_sum_weights_bounded(w: Weights, enabled: Seq<ExtensionIndicator>)
    ensures
        0 <= sum_weights(w, enabled) <= enabled.len() * 0xffff_ffff,
    decreases enabled.len(),
{
    if enabled.len() > 0 {
        lemma_sum_weights_bounded(w, enabled.drop_last());
    }
}

pub proof fn lemma_sums_bounded(w: Weights, e: LedgerEntry, enabled: Seq<ExtensionIndicator>)
    requires
        e.wf(),
    ensures
        0 <= sum_weights(w, enabled) <= enabled.len() * 0xffff_ffff,
        -2 * sum_weights(w, enabled) <= sum_contributions(w, e, enabled) <= 2 * sum_weights(
            w,
            enabled,
        ),
    decreases enabled.len(),
{
    if enabled.len() > 0 {
        let k = enabled.last();
        lemma_sums_bounded(w, e, enabled.drop_last());
        if e.score_spec(k) is Some {
            lemma_weighted_score_bounds(e.score_spec(k)->Some_0 as int, w.weight_spec(k) as int);
        }
    }
}

/// The total weight is twice the baseline weight plus the weights of every
/// enabled indicator, whether or not its evaluator succeeded: two ledgers
/// that differ in which evaluations succeeded give the same total weight.
pub proof fn lemma_total_weight_ignores_outcomes(
    w: Weights,
    e1: LedgerEntry,
    e2: LedgerEntry,
    enabled: Seq<ExtensionIndicator>,
)
    requires
        enabled.len() <= MAX_ENABLED,
    ensures
        snapshot_spec(w, e1, enabled).total_weight == 2 * (w.basic + sum_weights(w, enabled)),
        snapshot_spec(w, e1, enabled).total_weight == snapshot_spec(w, e2, enabled).total_weight,
{
    lemma_sum_weights_bounded(w, enabled);
    assert(enabled.len() * 0xffff_ffff <= MAX_ENABLED * 0xffff_ffff) by (nonlinear_arith)
        requires
            enabled.len() <= MAX_ENABLED,
    ;
}

/// The score ratio lies in [-1, 1] when the total weight is positive and is
/// exactly 0 when the total weight is 0.
pub proof fn lemma_ratio_bounded(w: Weights, e: LedgerEntry, enabled: Seq<ExtensionIndicator>)
    requires
        e.wf(),
        enabled.len() <= MAX_ENABLED,
    ensures
        ({
            let s = snapshot_spec(w, e, enabled);
            &&& s.score_ratio.den > 0
            &&& -s.score_ratio.den <= s.score_ratio.num <= s.score_ratio.den
            &&& s.total_weight > 0 ==> s.score_ratio == ScoreRatio {
                num: s.total_score,
                den: s.total_weight,
            }
            &&& s.total_weight == 0 ==> s.score_ratio.num == 0
        }),
{
    lemma_sums_bounded(w, e, enabled);
    lemma_weighted_score_bounds(e.baseline.signal_score as int, w.basic as int);
    assert(enabled.len() * 0xffff_ffff <= MAX_ENABLED * 0xffff_ffff) by (nonlinear_arith)
        requires
            enabled.len() <= MAX_ENABLED,
    ;
}

/// Computes the snapshot of a run from the frozen ledger.
pub fn calculate_final_score_snapshot(
    w: &Weights,
    enabled: &Vec<ExtensionIndicator>,
    ledger: &Ledger,
) -> (r: FinalScoreSnapshot)
    requires
        enabled@.len() <= MAX_ENABLED,
    ensures
        r == snapshot_spec(*w, ledger@, enabled@),
        r.total_score == total_score_spec(*w, ledger@, enabled@),
        r.total_weight == total_weight_spec(*w, enabled@),
        r.score_ratio.den > 0,
        -r.score_ratio.den <= r.score_ratio.num <= r.score_ratio.den,
{
    let e = ledger.entry();
    let mut ts: i64 = 0;
    let mut sw: i64 = 0;
    let mut i: usize = 0;
    proof {
        lemma_sums_bounded(*w, *e, enabled@);
        lemma_ratio_bounded(*w, *e, enabled@);
    }
    while i < enabled.len()
        invariant
            i <= enabled@.len() <= MAX_ENABLED,
            e.wf(),
            sw == sum_weights(*w, enabled@.subrange(0, i as int)),
            ts == sum_contributions(*w, *e, enabled@.subrange(0, i as int)),
        decreases enabled@.len() - i,
    {
        let ghost pre = enabled@.subrange(0, i as int);
        let ghost next = enabled@.subrange(0, i + 1);
        assert(next.drop_last() =~= pre);
        proof {
            lemma_sums_bounded(*w, *e, next);
            assert(next.len() * 0xffff_ffff <= MAX_ENABLED * 0xffff_ffff) by (nonlinear_arith)
                requires
                    next.len() <= MAX_ENABLED,
            ;
        }
        let k = enabled[i];
        let wk = w.weight_of(k);
        sw = sw + wk as i64;
        let c: i64 = match e.score(k) {
            Some(s) => {
                proof {
                    lemma_weighted_score_bounds(s as int, wk as int);
                }
                s as i64 * wk as i64
            },
            None => 0,
        };
        assert(c == contribution(*w, *e, k));
        ts = ts + c;
        i = i + 1;
    }
    assert(enabled@.subrange(0, enabled@.len() as int) =~= enabled@);
    proof {
        lemma_weighted_score_bounds(e.baseline.signal_score as int, w.basic as int);
    }
    let total_score = e.baseline.signal_score as i64 * w.basic as i64 + ts;
    let total_weight = 2 * (w.basic as i64 + sw);
    let score_ratio = if total_weight > 0 {
        ScoreRatio { num: total_score, den: total_weight }
    } else {
        ScoreRatio { num: 0, den: 1 }
    };
    FinalScoreSnapshot { total_score, total_weight, score_ratio }
}

} // verus!
