//! The score ledger of one run: filled once per field during evaluation by a
//! builder, then frozen into a read-only record.
use vstd::prelude::*;
use crate::bars::{bars_wf, Bar};
use crate::baseline::{baseline_reading, BaselineReading, BaselineThresholds, MomentumInputs};
use crate::extension::{
    adx_reading, bollinger_reading, checked, ema_reading, evaluate_adx, evaluate_bollinger,
    evaluate_ema, evaluate_fibonacci, evaluate_ichimoku, evaluate_roc, evaluate_sma,
    evaluate_stochastics, evaluate_vwap, fibonacci_reading, ichimoku_reading, roc_reading,
    sma_reading, stochastics_reading, vwap_reading, AdxReading, BollingerReading, EmaReading,
    EvalError, FibonacciReading, IchimokuReading, RocReading, SmaReading, StochasticsReading,
    VwapReading,
};
use crate::fixed::VALUE_LIMIT;
use crate::indicator::ExtensionIndicator;
use crate::score::is_score;

verus! {

/// The reading of one extension indicator.
#[derive(Clone, Copy, Debug, PartialEq, Eq, Structural)]
pub enum ExtensionReading {
    Ema(EmaReading),
    Sma(SmaReading),
    Bollinger(BollingerReading),
    Roc(RocReading),
    Adx(AdxReading),
    Stochastics(StochasticsReading),
    Fibonacci(FibonacciReading),
    Vwap(VwapReading),
    Ichimoku(IchimokuReading),
}

impl ExtensionReading {
    pub open spec fn kind_spec(self) -> ExtensionIndicator {
        match self {
            ExtensionReading::Ema(_) => ExtensionIndicator::Ema,
            ExtensionReading::Sma(_) => ExtensionIndicator::Sma,
            ExtensionReading::Bollinger(_) => ExtensionIndicator::Bollinger,
            ExtensionReading::Roc(_) => ExtensionIndicator::Roc,
            ExtensionReading::Adx(_) => ExtensionIndicator::Adx,
            ExtensionReading::Stochastics(_) => ExtensionIndicator::Stochastics,
            ExtensionReading::Fibonacci(_) => ExtensionIndicator::Fibonacci,
            ExtensionReading::Vwap(_) => ExtensionIndicator::Vwap,
            ExtensionReading::Ichimoku(_) => ExtensionIndicator::Ichimoku,
        }
    }

    pub open spec fn score_spec(self) -> i8 {
        match self {
            ExtensionReading::Ema(r) => r.score,
            ExtensionReading::Sma(r) => r.score,
            ExtensionReading::Bollinger(r) => r.score,
            ExtensionReading::Roc(r) => r.score,
            ExtensionReading::Adx(r) => r.score,
            ExtensionReading::Stochastics(r) => r.score,
            ExtensionReading::Fibonacci(r) => r.score,
            ExtensionReading::Vwap(r) => r.score,
            ExtensionReading::Ichimoku(r) => r.score,
        }
    }

    /// The indicator this reading belongs to.
    pub fn kind(&self) -> (r: ExtensionIndicator)
        ensures
            r == self.kind_spec(),
    {
        match self {
            ExtensionReading::Ema(_) => ExtensionIndicator::Ema,
            ExtensionReading::Sma(_) => ExtensionIndicator::Sma,
            ExtensionReading::Bollinger(_) => ExtensionIndicator::Bollinger,
            ExtensionReading::Roc(_) => ExtensionIndicator::Roc,
            ExtensionReading::Adx(_) => ExtensionIndicator::Adx,
            ExtensionReading::Stochastics(_) => ExtensionIndicator::Stochastics,
            ExtensionReading::Fibonacci(_) => ExtensionIndicator::Fibonacci,
            ExtensionReading::Vwap(_) => ExtensionIndicator::Vwap,
            ExtensionReading::Ichimoku(_) => ExtensionIndicator::Ichimoku,
        }
    }

    /// The reading's score.
    pub fn score(&self) -> (r: i8)
        ensures
            r == self.score_spec(),
    {
        match self {
            ExtensionReading::Ema(r) => r.score,
            ExtensionReading::Sma(r) => r.score,
            ExtensionReading::Bollinger(r) => r.score,
            ExtensionReading::Roc(r) => r.score,
            ExtensionReading::Adx(r) => r.score,
            ExtensionReading::Stochastics(r) => r.score,
            ExtensionReading::Fibonacci(r) => r.score,
            ExtensionReading::Vwap(r) => r.score,
            ExtensionReading::Ichimoku(r) => r.score,
        }
    }
}

/// Averages of the closes that the technical-analysis library computes for
/// the EMA and Bollinger evaluators; fixed point.
#[derive(Clone, Copy, Debug, PartialEq, Eq, Structural)]
pub struct ExternalAverages {
    pub ema_short: i64,
    pub ema_long: i64,
    pub bb_upper: i64,
    pub bb_lower: i64,
}

impl ExternalAverages {
    pub open spec fn in_range(self) -> bool {
        &&& -VALUE_LIMIT <= self.ema_short <= VALUE_LIMIT
        &&& -VALUE_LIMIT <= self.ema_long <= VALUE_LIMIT
        &&& -VALUE_LIMIT <= self.bb_upper <= VALUE_LIMIT
        &&& -VALUE_LIMIT <= self.bb_lower <= VALUE_LIMIT
    }
}

/// The reading an indicator yields on a series long enough for it.
pub open spec fn extension_reading(
    k: ExtensionIndicator,
    s: Seq<Bar>,
    ext: ExternalAverages,
) -> ExtensionReading {
    match k {
        ExtensionIndicator::Ema => ExtensionReading::Ema(
            ema_reading(ext.ema_short as int, ext.ema_long as int),
        ),
        ExtensionIndicator::Sma => ExtensionReading::Sma(sma_reading(s)),
        ExtensionIndicator::Bollinger => ExtensionReading::Bollinger(
            bollinger_reading(s, ext.bb_upper as int, ext.bb_lower as int),
        ),
        ExtensionIndicator::Roc => ExtensionReading::Roc(roc_reading(s)),
        ExtensionIndicator::Adx => ExtensionReading::Adx(adx_reading(s)),
        ExtensionIndicator::Stochastics => ExtensionReading::Stochastics(stochastics_reading(s)),
        ExtensionIndicator::Fibonacci => ExtensionReading::Fibonacci(fibonacci_reading(s)),
        ExtensionIndicator::Vwap => ExtensionReading::Vwap(vwap_reading(s)),
        ExtensionIndicator::Ichimoku => ExtensionReading::Ichimoku(ichimoku_reading(s)),
    }
}

/// What evaluating an indicator on a series gives.
pub open spec fn extension_result(
    k: ExtensionIndicator,
    s: Seq<Bar>,
    ext: ExternalAverages,
) -> Result<ExtensionReading, EvalError> {
    checked(k.min_bars_spec(), s.len(), extension_reading(k, s, ext))
}

/// Evaluates one extension indicator: the single entry point through which
/// every indicator is dispatched.
pub fn evaluate_extension(k: ExtensionIndicator, bars: &Vec<Bar>, ext: &ExternalAverages) -> (r:
    Result<ExtensionReading, EvalError>)
    requires
        bars_wf(bars@),
        ext.in_range(),
    ensures
        r == extension_result(k, bars@, *ext),
        r is Ok ==> r->Ok_0.kind_spec() == k && is_score(r->Ok_0.score_spec() as int),
{
    match k {
        ExtensionIndicator::Ema => match evaluate_ema(bars, ext.ema_short, ext.ema_long) {
            Ok(r) => Ok(ExtensionReading::Ema(r)),
            Err(e) => Err(e),
        },
        ExtensionIndicator::Sma => match evaluate_sma(bars) {
            Ok(r) => Ok(ExtensionReading::Sma(r)),
            Err(e) => Err(e),
        },
        ExtensionIndicator::Bollinger => match evaluate_bollinger(bars, ext.bb_upper, ext.bb_lower) {
            Ok(r) => Ok(ExtensionReading::Bollinger(r)),
            Err(e) => Err(e),
        },
        ExtensionIndicator::Roc => match evaluate_roc(bars) {
            Ok(r) => Ok(ExtensionReading::Roc(r)),
            Err(e) => Err(e),
        },
        ExtensionIndicator::Adx => match evaluate_adx(bars) {
            Ok(r) => Ok(ExtensionReading::Adx(r)),
            Err(e) => Err(e),
        },
        ExtensionIndicator::Stochastics => match evaluate_stochastics(bars) {
            Ok(r) => Ok(ExtensionReading::Stochastics(r)),
            Err(e) => Err(e),
        },
        ExtensionIndicator::Fibonacci => match evaluate_fibonacci(bars) {
            Ok(r) => Ok(ExtensionReading::Fibonacci(r)),
            Err(e) => Err(e),
        },
        ExtensionIndicator::Vwap => match evaluate_vwap(bars) {
            Ok(r) => Ok(ExtensionReading::Vwap(r)),
            Err(e) => Err(e),
        },
        ExtensionIndicator::Ichimoku => match evaluate_ichimoku(bars) {
            Ok(r) => Ok(ExtensionReading::Ichimoku(r)),
            Err(e) => Err(e),
        },
    }
}

/// The fields of a ledger.
pub struct LedgerEntry {
    pub ticker: String,
    pub name: String,
    pub date: String,
    pub baseline: BaselineReading,
    pub ema: Option<EmaReading>,
    pub sma: Option<SmaReading>,
    pub bollinger: Option<BollingerReading>,
    pub roc: Option<RocReading>,
    pub adx: Option<AdxReading>,
    pub stochastics: Option<StochasticsReading>,
    pub fibonacci: Option<FibonacciReading>,
    pub vwap: Option<VwapReading>,
    pub ichimoku: Option<IchimokuReading>,
}

impl LedgerEntry {
    /// The stored reading of an indicator, if it was evaluated successfully.
    pub open spec fn reading_spec(&self, k: ExtensionIndicator) -> Option<ExtensionReading> {
        match k {
            ExtensionIndicator::Ema => match self.ema {
                Some(r) => Some(ExtensionReading::Ema(r)),
                None => None,
            },
            ExtensionIndicator::Sma => match self.sma {
                Some(r) => Some(ExtensionReading::Sma(r)),
                None => None,
            },
            ExtensionIndicator::Bollinger => match self.bollinger {
                Some(r) => Some(ExtensionReading::Bollinger(r)),
                None => None,
            },
            ExtensionIndicator::Roc => match self.roc {
                Some(r) => Some(ExtensionReading::Roc(r)),
                None => None,
            },
            ExtensionIndicator::Adx => match self.adx {
                Some(r) => Some(ExtensionReading::Adx(r)),
                None => None,
            },
            ExtensionIndicator::Stochastics => match self.stochastics {
                Some(r) => Some(ExtensionReading::Stochastics(r)),
                None => None,
            },
            ExtensionIndicator::Fibonacci => match self.fibonacci {
                Some(r) => Some(ExtensionReading::Fibonacci(r)),
                None => None,
            },
            ExtensionIndicator::Vwap => match self.vwap {
                Some(r) => Some(ExtensionReading::Vwap(r)),
                None => None,
            },
            ExtensionIndicator::Ichimoku => match self.ichimoku {
                Some(r) => Some(ExtensionReading::Ichimoku(r)),
                None => None,
            },
        }
    }

    /// The stored score of an indicator, if any.
    pub open spec fn score_spec(&self, k: ExtensionIndicator) -> Option<i8> {
        match self.reading_spec(k) {
            Some(r) => Some(r.score_spec()),
            None => None,
        }
    }

    /// Every score held is one of the five levels.
    pub open spec fn wf(&self) -> bool {
        &&& is_score(self.baseline.signal_score as int)
        &&& forall|k: ExtensionIndicator| #[trigger]
            self.score_spec(k) is Some ==> is_score(self.score_spec(k)->Some_0 as int)
    }

    /// The stored reading of an indicator.
    pub fn reading(&self, k: ExtensionIndicator) -> (r: Option<ExtensionReading>)
        ensures
            r == self.reading_spec(k),
    {
        match k {
            ExtensionIndicator::Ema => match self.ema {
                Some(r) => Some(ExtensionReading::Ema(r)),
                None => None,
            },
            ExtensionIndicator::Sma => match self.sma {
                Some(r) => Some(ExtensionReading::Sma(r)),
                None => None,
            },
            ExtensionIndicator::Bollinger => match self.bollinger {
                Some(r) => Some(ExtensionReading::Bollinger(r)),
                None => None,
            },
            ExtensionIndicator::Roc => match self.roc {
                Some(r) => Some(ExtensionReading::Roc(r)),
                None => None,
            },
            ExtensionIndicator::Adx => match self.adx {
                Some(r) => Some(ExtensionReading::Adx(r)),
                None => None,
            },
            ExtensionIndicator::Stochastics => match self.stochastics {
                Some(r) => Some(ExtensionReading::Stochastics(r)),
                None => None,
            },
            ExtensionIndicator::Fibonacci => match self.fibonacci {
                Some(r) => Some(ExtensionReading::Fibonacci(r)),
                None => None,
            },
            ExtensionIndicator::Vwap => match self.vwap {
                Some(r) => Some(ExtensionReading::Vwap(r)),
                None => None,
            },
            ExtensionIndicator::Ichimoku => match self.ichimoku {
                Some(r) => Some(ExtensionReading::Ichimoku(r)),
                None => None,
            },
        }
    }

    /// Stores a reading in the field of its indicator, which must still be empty.
    fn store(&mut self, reading: ExtensionReading)
        requires
            old(self).wf(),
            old(self).reading_spec(reading.kind_spec()) is None,
            is_score(reading.score_spec() as int),
        ensures
            final(self).wf(),
            final(self).reading_spec(reading.kind_spec()) == Some(reading),
            forall|k: ExtensionIndicator|
                k != reading.kind_spec() ==> #[trigger] final(self).reading_spec(k) == old(self).reading_spec(k),
            final(self).ticker == old(self).ticker,
            final(self).name == old(self).name,
            final(self).date == old(self).date,
            final(self).baseline == old(self).baseline,
        no_unwind
    {
        let ghost before = *self;
        match reading {
            ExtensionReading::Ema(r) => self.ema = Some(r),
            ExtensionReading::Sma(r) => self.sma = Some(r),
            ExtensionReading::Bollinger(r) => self.bollinger = Some(r),
            ExtensionReading::Roc(r) => self.roc = Some(r),
            ExtensionReading::Adx(r) => self.adx = Some(r),
            ExtensionReading::Stochastics(r) => self.stochastics = Some(r),
            ExtensionReading::Fibonacci(r) => self.fibonacci = Some(r),
            ExtensionReading::Vwap(r) => self.vwap = Some(r),
            ExtensionReading::Ichimoku(r) => self.ichimoku = Some(r),
        }
        assert forall|x: ExtensionIndicator| #[trigger]
            self.score_spec(x) is Some implies is_score(self.score_spec(x)->Some_0 as int) by {
            if x != reading.kind_spec() {
                assert(before.score_spec(x) == self.score_spec(x));
            }
        }
    }

    /// The stored score of an indicator.
    pub fn score(&self, k: ExtensionIndicator) -> (r: Option<i8>)
        ensures
            r == self.score_spec(k),
    {
        match self.reading(k) {
            Some(r) => Some(r.score()),
            None => None,
        }
    }
}

/// The ledger while the evaluators run: each field is written at most once.
pub struct LedgerBuilder {
    entry: LedgerEntry,
}

/// The frozen ledger, read-only for every consumer.
pub struct Ledger {
    entry: LedgerEntry,
}

impl LedgerBuilder {
    #[verifier::type_invariant]
    spec fn inv(&self) -> bool {
        self.entry.wf()
    }
}

impl Ledger {
    #[verifier::type_invariant]
    spec fn inv(&self) -> bool {
        self.entry.wf()
    }
}

impl View for LedgerBuilder {
    type V = LedgerEntry;

    closed spec fn view(&self) -> LedgerEntry {
        self.entry
    }
}

impl View for Ledger {
    type V = LedgerEntry;

    closed spec fn view(&self) -> LedgerEntry {
        self.entry
    }
}

impl LedgerBuilder {
    /// Opens the ledger of a run once its baseline has been evaluated; no
    /// extension reading is held yet.
    pub fn new(ticker: String, name: String, date: String, baseline: BaselineReading) -> (r:
        LedgerBuilder)
        requires
            is_score(baseline.signal_score as int),
        ensures
            r@.wf(),
            r@.ticker == ticker,
            r@.name == name,
            r@.date == date,
            r@.baseline == baseline,
            forall|k: ExtensionIndicator| #[trigger] r@.reading_spec(k) is None,
    {
        LedgerBuilder {
            entry: LedgerEntry {
                ticker,
                name,
                date,
                baseline,
                ema: None,
                sma: None,
                bollinger: None,
                roc: None,
                adx: None,
                stochastics: None,
                fibonacci: None,
                vwap: None,
                ichimoku: None,
            },
        }
    }

    /// Stores a reading in the field of its indicator, which must still be empty.
    pub fn record(&mut self, reading: ExtensionReading)
        requires
            old(self)@.reading_spec(reading.kind_spec()) is None,
            is_score(reading.score_spec() as int),
        ensures
            final(self)@.wf(),
            final(self)@.reading_spec(reading.kind_spec()) == Some(reading),
            forall|k: ExtensionIndicator|
                k != reading.kind_spec() ==> #[trigger] final(self)@.reading_spec(k) == old(
                    self,
                )@.reading_spec(k),
            final(self)@.ticker == old(self)@.ticker,
            final(self)@.name == old(self)@.name,
            final(self)@.date == old(self)@.date,
            final(self)@.baseline == old(self)@.baseline,
    {
        proof {
            use_type_invariant(&*self);
        }
        self.entry.store(reading);
    }

    /// Whether the indicator's field is already written.
    pub fn holds(&self, k: ExtensionIndicator) -> (r: bool)
        ensures
            r == self@.reading_spec(k) is Some,
    {
        self.entry.reading(k).is_some()
    }

    /// Ends the evaluation phase.
    pub fn freeze(self) -> (r: Ledger)
        ensures
            r@ == self@,
            r@.wf(),
    {
        proof {
            use_type_invariant(&self);
        }
        Ledger { entry: self.entry }
    }
}

impl Ledger {
    /// Read-only access to every field.
    pub fn entry(&self) -> (r: &LedgerEntry)
        ensures
            *r == self@,
            r.wf(),
    {
        proof {
            use_type_invariant(self);
        }
        &self.entry
    }
}

/// Runs the evaluator of every enabled indicator, in order, on a ledger that
/// holds no extension reading yet.  A successful evaluation is recorded; a
/// failed one leaves its field empty and is reported in the result.  An
/// indicator listed twice is evaluated once.
pub fn evaluate_all_selected_extensions(
    enabled: &Vec<ExtensionIndicator>,
    bars: &Vec<Bar>,
    ext: &ExternalAverages,
    builder: &mut LedgerBuilder,
) -> (failures: Vec<(ExtensionIndicator, EvalError)>)
    requires
        bars_wf(bars@),
        ext.in_range(),
        forall|k: ExtensionIndicator| #[trigger] old(builder)@.reading_spec(k) is None,
    ensures
        final(builder)@.wf(),
        final(builder)@.ticker == old(builder)@.ticker,
        final(builder)@.name == old(builder)@.name,
        final(builder)@.date == old(builder)@.date,
        final(builder)@.baseline == old(builder)@.baseline,
        forall|k: ExtensionIndicator| #[trigger]
            final(builder)@.reading_spec(k) == if enabled@.contains(k) {
                match extension_result(k, bars@, *ext) {
                    Ok(r) => Some(r),
                    Err(_) => None,
                }
            } else {
                None
            },
        forall|i: int|
            0 <= i < failures@.len() ==> enabled@.contains(#[trigger] failures@[i].0)
                && extension_result(failures@[i].0, bars@, *ext) == Err::<
                ExtensionReading,
                EvalError,
            >(failures@[i].1),
{
    let mut failures: Vec<(ExtensionIndicator, EvalError)> = Vec::new();
    let mut i: usize = 0;
    while i < enabled.len()
        invariant
            i <= enabled@.len(),
            bars_wf(bars@),
            ext.in_range(),
            builder@.ticker == old(builder)@.ticker,
            builder@.name == old(builder)@.name,
            builder@.date == old(builder)@.date,
            builder@.baseline == old(builder)@.baseline,
            forall|k: ExtensionIndicator| #[trigger]
                builder@.reading_spec(k) == if enabled@.subrange(0, i as int).contains(k) {
                    match extension_result(k, bars@, *ext) {
                        Ok(r) => Some(r),
                        Err(_) => None,
                    }
                } else {
                    None
                },
            forall|j: int|
                0 <= j < failures@.len() ==> enabled@.contains(#[trigger] failures@[j].0)
                    && extension_result(failures@[j].0, bars@, *ext) == Err::<
                    ExtensionReading,
                    EvalError,
                >(failures@[j].1),
        decreases enabled@.len() - i,
    {
        let k = enabled[i];
        let ghost before = enabled@.subrange(0, i as int);
        let ghost after = enabled@.subrange(0, i + 1);
        assert(after =~= before.push(k));
        assert(forall|x: ExtensionIndicator| after.contains(x) <==> (before.contains(x) || x == k))
            by {
            assert forall|x: ExtensionIndicator| after.contains(x) implies (before.contains(x) || x
                == k) by {
                if after.contains(x) {
                    let j = choose|j: int| 0 <= j < after.len() && after[j] == x;
                    if j < i {
                        assert(before[j] == x);
                    }
                }
            }
            assert forall|x: ExtensionIndicator| (before.contains(x) || x == k) implies after.contains(
                x,
            ) by {
                if before.contains(x) {
                    let j = choose|j: int| 0 <= j < before.len() && before[j] == x;
                    assert(after[j] == x);
                } else {
                    assert(after[i as int] == x);
                }
            }
        }
        proof {
            if !before.contains(k) {
                assert(builder@.reading_spec(k) is None);
            }
        }
        if !builder.holds(k) {
            let ghost old_builder = builder@;
            match evaluate_extension(k, bars, ext) {
                Ok(r) => {
                    builder.record(r);
                },
                Err(e) => {
                    failures.push((k, e));
                },
            }
        }
        assert(enabled@.contains(k)) by {
            assert(enabled@[i as int] == k);
        }
        i = i + 1;
    }
    assert(enabled@.subrange(0, enabled@.len() as int) =~= enabled@);
    proof {
        use_type_invariant(&*builder);
    }
    failures
}

/// Every score the evaluators produce is one of the five levels: each
/// extension reading's, and the baseline's.
pub proof fn lemma_every_score_is_a_level(
    k: ExtensionIndicator,
    s: Seq<Bar>,
    ext: ExternalAverages,
    m: MomentumInputs,
    th: BaselineThresholds,
)
    ensures
        is_score(extension_reading(k, s, ext).score_spec() as int),
        s.len() >= 2 ==> is_score(baseline_reading(s, m, th).signal_score as int),
{
}

} // verus!
