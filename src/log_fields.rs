//! The flat log record of a run, and its header: both follow one field
//! order, fixed by the enabled indicators.
use vstd::prelude::*;
use crate::aggregate::FinalScoreSnapshot;
use crate::indicator::ExtensionIndicator;
use crate::ledger::LedgerEntry;

verus! {

/// One value of the log record, for the writer to format.
#[derive(Debug)]
pub enum LogValue {
    Text(String),
    /// A fixed-point value shown with the given number of decimals.
    Fixed { value: i64, decimals: u8 },
    /// A fixed-point value shown with a sign and two decimals.
    Signed(i64),
    Score(i8),
    /// A weighted total, in thousandths.
    Weighted(i64),
    /// The indicator has no such value.
    Missing,
}

/// Field names of an indicator, in log order.
pub open spec fn ext_field_names(k: ExtensionIndicator) -> Seq<&'static str> {
    match k {
        ExtensionIndicator::Ema => seq!["ema_short", "ema_long", "ema_score"],
        ExtensionIndicator::Sma => seq!["sma_short", "sma_long", "sma_score"],
        ExtensionIndicator::Roc => seq!["roc", "roc_score"],
        ExtensionIndicator::Adx => seq!["adx", "adx_score"],
        ExtensionIndicator::Stochastics => seq!["stoch_k", "stoch_d", "stoch_score"],
        ExtensionIndicator::Bollinger => seq![
            "bb_upper",
            "bb_lower",
            "percent_b",
            "bandwidth_%",
            "bb_score",
        ],
        ExtensionIndicator::Fibonacci => seq!["fibo_38_2", "fibo_50_0", "fibo_61_8", "fibo_score"],
        ExtensionIndicator::Vwap => seq!["vwap", "vwap_score"],
        ExtensionIndicator::Ichimoku => seq!["tenkan", "kijun", "ichimoku_score"],
    }
}

pub open spec fn base_field_names() -> Seq<&'static str> {
    seq!["ticker", "date", "close", "prev_close", "diff", "diff_pct", "macd", "signal", "rsi", "score"]
}

pub open spec fn ext_names_of(enabled: Seq<ExtensionIndicator>) -> Seq<&'static str>
    decreases enabled.len(),
{
    if enabled.len() == 0 {
        Seq::empty()
    } else {
        ext_names_of(enabled.drop_last()) + ext_field_names(enabled.last())
    }
}

/// The header: base fields, each enabled indicator's fields in order, then
/// the final score.
pub open spec fn header_spec(enabled: Seq<ExtensionIndicator>) -> Seq<&'static str> {
    base_field_names() + ext_names_of(enabled) + seq!["final_score"]
}

fn push_all(v: &mut Vec<&'static str>, names: &[&'static str])
    ensures
        final(v)@ == old(v)@ + names@,
{
    let mut i: usize = 0;
    while i < names.len()
        invariant
            i <= names@.len(),
            v@ == old(v)@ + names@.subrange(0, i as int),
        decreases names@.len() - i,
    {
        v.push(names[i]);
        assert(names@.subrange(0, i + 1) =~= names@.subrange(0, i as int).push(names@[i as int]));
        i = i + 1;
    }
    assert(names@.subrange(0, names@.len() as int) =~= names@);
}

fn ext_names(k: ExtensionIndicator) -> (r: &'static [&'static str])
    ensures
        r@ == ext_field_names(k),
{
    match k {
        ExtensionIndicator::Ema => {
            let r: &'static [&'static str] = &["ema_short", "ema_long", "ema_score"];
            assert(r@ =~= ext_field_names(k));
            r
        },
        ExtensionIndicator::Sma => {
            let r: &'static [&'static str] = &["sma_short", "sma_long", "sma_score"];
            assert(r@ =~= ext_field_names(k));
            r
        },
        ExtensionIndicator::Roc => {
            let r: &'static [&'static str] = &["roc", "roc_score"];
            assert(r@ =~= ext_field_names(k));
            r
        },
        ExtensionIndicator::Adx => {
            let r: &'static [&'static str] = &["adx", "adx_score"];
            assert(r@ =~= ext_field_names(k));
            r
        },
        ExtensionIndicator::Stochastics => {
            let r: &'static [&'static str] = &["stoch_k", "stoch_d", "stoch_score"];
            assert(r@ =~= ext_field_names(k));
            r
        },
        ExtensionIndicator::Bollinger => {
            let r: &'static [&'static str] = &[
                "bb_upper",
                "bb_lower",
                "percent_b",
                "bandwidth_%",
                "bb_score",
            ];
            assert(r@ =~= ext_field_names(k));
            r
        },
        ExtensionIndicator::Fibonacci => {
            let r: &'static [&'static str] = &["fibo_38_2", "fibo_50_0", "fibo_61_8", "fibo_score"];
            assert(r@ =~= ext_field_names(k));
            r
        },
        ExtensionIndicator::Vwap => {
            let r: &'static [&'static str] = &["vwap", "vwap_score"];
            assert(r@ =~= ext_field_names(k));
            r
        },
        ExtensionIndicator::Ichimoku => {
            let r: &'static [&'static str] = &["tenkan", "kijun", "ichimoku_score"];
            assert(r@ =~= ext_field_names(k));
            r
        },
    }
}

/// The log header for the enabled indicators.
pub fn generate_csv_header(enabled: &Vec<ExtensionIndicator>) -> (r: Vec<&'static str>)
    ensures
        r@ == header_spec(enabled@),
{
    let mut v: Vec<&'static str> = Vec::new();
    let base: &'static [&'static str] = &[
        "ticker",
        "date",
        "close",
        "prev_close",
        "diff",
        "diff_pct",
        "macd",
        "signal",
        "rsi",
        "score",
    ];
    assert(base@ =~= base_field_names());
    push_all(&mut v, base);
    let mut i: usize = 0;
    while i < enabled.len()
        invariant
            i <= enabled@.len(),
            v@ == base_field_names() + ext_names_of(enabled@.subrange(0, i as int)),
        decreases enabled@.len() - i,
    {
        let ghost pre = enabled@.subrange(0, i as int);
        assert(enabled@.subrange(0, i + 1).drop_last() =~= pre);
        push_all(&mut v, ext_names(enabled[i]));
        assert(v@ =~= base_field_names() + ext_names_of(enabled@.subrange(0, i + 1)));
        i = i + 1;
    }
    assert(enabled@.subrange(0, enabled@.len() as int) =~= enabled@);
    let last: &'static [&'static str] = &["final_score"];
    assert(last@ =~= seq!["final_score"]);
    push_all(&mut v, last);
    v
}

/// The values an indicator contributes to the log record.
pub open spec fn ext_values(e: LedgerEntry, k: ExtensionIndicator) -> Seq<LogValue> {
    match k {
        ExtensionIndicator::Ema => match e.ema {
            Some(r) => seq![
                LogValue::Fixed { value: r.short, decimals: 2 },
                LogValue::Fixed { value: r.long, decimals: 2 },
                LogValue::Score(r.score),
            ],
            None => seq![LogValue::Missing, LogValue::Missing, LogValue::Missing],
        },
        ExtensionIndicator::Sma => match e.sma {
            Some(r) => seq![
                LogValue::Fixed { value: r.short, decimals: 2 },
                LogValue::Fixed { value: r.long, decimals: 2 },
                LogValue::Score(r.score),
            ],
            None => seq![LogValue::Missing, LogValue::Missing, LogValue::Missing],
        },
        ExtensionIndicator::Roc => match e.roc {
            Some(r) => seq![LogValue::Fixed { value: r.roc, decimals: 2 }, LogValue::Score(r.score)],
            None => seq![LogValue::Missing, LogValue::Missing],
        },
        ExtensionIndicator::Adx => match e.adx {
            Some(r) => seq![LogValue::Fixed { value: r.adx, decimals: 2 }, LogValue::Score(r.score)],
            None => seq![LogValue::Missing, LogValue::Missing],
        },
        ExtensionIndicator::Stochastics => match e.stochastics {
            Some(r) => seq![
                LogValue::Fixed { value: r.k, decimals: 2 },
                LogValue::Fixed { value: r.d, decimals: 2 },
                LogValue::Score(r.score),
            ],
            None => seq![LogValue::Missing, LogValue::Missing, LogValue::Missing],
        },
        ExtensionIndicator::Bollinger => match e.bollinger {
            Some(r) => seq![
                LogValue::Fixed { value: r.upper, decimals: 2 },
                LogValue::Fixed { value: r.lower, decimals: 2 },
                LogValue::Fixed { value: r.percent_b, decimals: 2 },
                LogValue::Fixed { value: r.bandwidth, decimals: 2 },
                LogValue::Score(r.score),
            ],
            None => seq![
                LogValue::Missing,
                LogValue::Missing,
                LogValue::Missing,
                LogValue::Missing,
                LogValue::Missing,
            ],
        },
        ExtensionIndicator::Fibonacci => match e.fibonacci {
            Some(r) => match r.levels {
                Some(l) => seq![
                    LogValue::Fixed { value: l.f38, decimals: 2 },
                    LogValue::Fixed { value: l.f50, decimals: 2 },
                    LogValue::Fixed { value: l.f62, decimals: 2 },
                    LogValue::Score(r.score),
                ],
                None => seq![
                    LogValue::Missing,
                    LogValue::Missing,
                    LogValue::Missing,
                    LogValue::Score(r.score),
                ],
            },
            None => seq![LogValue::Missing, LogValue::Missing, LogValue::Missing, LogValue::Missing],
        },
        ExtensionIndicator::Vwap => match e.vwap {
            Some(r) => seq![LogValue::Fixed { value: r.vwap, decimals: 2 }, LogValue::Score(r.score)],
            None => seq![LogValue::Missing, LogValue::Missing],
        },
        ExtensionIndicator::Ichimoku => match e.ichimoku {
            Some(r) => seq![
                LogValue::Fixed { value: r.tenkan, decimals: 2 },
                LogValue::Fixed { value: r.kijun, decimals: 2 },
                LogValue::Score(r.score),
            ],
            None => seq![LogValue::Missing, LogValue::Missing, LogValue::Missing],
        },
    }
}

pub proof fn lemma_ext_values_len(e: LedgerEntry, k: ExtensionIndicator)
    ensures
        ext_values(e, k).len() == ext_field_names(k).len(),
{
}

pub open spec fn ext_values_of(e: LedgerEntry, enabled: Seq<ExtensionIndicator>) -> Seq<LogValue>
    decreases enabled.len(),
{
    if enabled.len() == 0 {
        Seq::empty()
    } else {
        ext_values_of(e, enabled.drop_last()) + ext_values(e, enabled.last())
    }
}

pub open spec fn base_values(e: LedgerEntry) -> Seq<LogValue> {
    seq![
        LogValue::Text(e.ticker),
        LogValue::Text(e.date),
        LogValue::Fixed { value: e.baseline.close, decimals: 2 },
        LogValue::Fixed { value: e.baseline.previous_close, decimals: 2 },
        LogValue::Signed(e.baseline.price_diff),
        LogValue::Signed(e.baseline.price_diff_percent),
        LogValue::Fixed { value: e.baseline.macd, decimals: 4 },
        LogValue::Fixed { value: e.baseline.signal, decimals: 4 },
        LogValue::Fixed { value: e.baseline.rsi, decimals: 2 },
        LogValue::Score(e.baseline.signal_score),
    ]
}

/// The record: base values, each enabled indicator's values, then the
/// snapshot's total score.
pub open spec fn record_spec(
    e: LedgerEntry,
    enabled: Seq<ExtensionIndicator>,
    snap: FinalScoreSnapshot,
) -> Seq<LogValue> {
    base_values(e) + ext_values_of(e, enabled) + seq![LogValue::Weighted(snap.total_score)]
}

pub proof fn lemma_ext_values_of_len(e: LedgerEntry, enabled: Seq<ExtensionIndicator>)
    ensures
        ext_values_of(e, enabled).len() == ext_names_of(enabled).len(),
    decreases enabled.len(),
{
    if enabled.len() > 0 {
        lemma_ext_values_of_len(e, enabled.drop_last());
        lemma_ext_values_len(e, enabled.last());
    }
}

/// The record has exactly one value per header field, in the same order:
/// field `i` of the record is the value named by field `i` of the header.
pub proof fn lemma_record_matches_header(
    e: LedgerEntry,
    enabled: Seq<ExtensionIndicator>,
    snap: FinalScoreSnapshot,
)
    ensures
        record_spec(e, enabled, snap).len() == header_spec(enabled).len(),
{
    lemma_ext_values_of_len(e, enabled);
}

fn missing(v: &mut Vec<LogValue>, n: usize)
    ensures
        final(v)@.len() == old(v)@.len() + n,
        forall|i: int| 0 <= i < old(v)@.len() ==> final(v)@[i] == old(v)@[i],
        forall|i: int| old(v)@.len() <= i < final(v)@.len() ==> final(v)@[i] == LogValue::Missing,
{
    let mut j: usize = 0;
    while j < n
        invariant
            j <= n,
            v@.len() == old(v)@.len() + j,
            forall|i: int| 0 <= i < old(v)@.len() ==> v@[i] == old(v)@[i],
            forall|i: int| old(v)@.len() <= i < v@.len() ==> v@[i] == LogValue::Missing,
        decreases n - j,
    {
        v.push(LogValue::Missing);
        j = j + 1;
    }
}

fn push_ext_values(v: &mut Vec<LogValue>, e: &LedgerEntry, k: ExtensionIndicator)
    ensures
        final(v)@ == old(v)@ + ext_values(*e, k),
{
    let ghost start = v@;
    match k {
        ExtensionIndicator::Ema => match e.ema {
            Some(r) => {
                v.push(LogValue::Fixed { value: r.short, decimals: 2 });
                v.push(LogValue::Fixed { value: r.long, decimals: 2 });
                v.push(LogValue::Score(r.score));
            },
            None => missing(v, 3),
        },
        ExtensionIndicator::Sma => match e.sma {
            Some(r) => {
                v.push(LogValue::Fixed { value: r.short, decimals: 2 });
                v.push(LogValue::Fixed { value: r.long, decimals: 2 });
                v.push(LogValue::Score(r.score));
            },
            None => missing(v, 3),
        },
        ExtensionIndicator::Roc => match e.roc {
            Some(r) => {
                v.push(LogValue::Fixed { value: r.roc, decimals: 2 });
                v.push(LogValue::Score(r.score));
            },
            None => missing(v, 2),
        },
        ExtensionIndicator::Adx => match e.adx {
            Some(r) => {
                v.push(LogValue::Fixed { value: r.adx, decimals: 2 });
                v.push(LogValue::Score(r.score));
            },
            None => missing(v, 2),
        },
        ExtensionIndicator::Stochastics => match e.stochastics {
            Some(r) => {
                v.push(LogValue::Fixed { value: r.k, decimals: 2 });
                v.push(LogValue::Fixed { value: r.d, decimals: 2 });
                v.push(LogValue::Score(r.score));
            },
            None => missing(v, 3),
        },
        ExtensionIndicator::Bollinger => match e.bollinger {
            Some(r) => {
                v.push(LogValue::Fixed { value: r.upper, decimals: 2 });
                v.push(LogValue::Fixed { value: r.lower, decimals: 2 });
                v.push(LogValue::Fixed { value: r.percent_b, decimals: 2 });
                v.push(LogValue::Fixed { value: r.bandwidth, decimals: 2 });
                v.push(LogValue::Score(r.score));
            },
            None => missing(v, 5),
        },
        ExtensionIndicator::Fibonacci => match e.fibonacci {
            Some(r) => {
                match r.levels {
                    Some(l) => {
                        v.push(LogValue::Fixed { value: l.f38, decimals: 2 });
                        v.push(LogValue::Fixed { value: l.f50, decimals: 2 });
                        v.push(LogValue::Fixed { value: l.f62, decimals: 2 });
                    },
                    None => missing(v, 3),
                }
                v.push(LogValue::Score(r.score));
            },
            None => missing(v, 4),
        },
        ExtensionIndicator::Vwap => match e.vwap {
            Some(r) => {
                v.push(LogValue::Fixed { value: r.vwap, decimals: 2 });
                v.push(LogValue::Score(r.score));
            },
            None => missing(v, 2),
        },
        ExtensionIndicator::Ichimoku => match e.ichimoku {
            Some(r) => {
                v.push(LogValue::Fixed { value: r.tenkan, decimals: 2 });
                v.push(LogValue::Fixed { value: r.kijun, decimals: 2 });
                v.push(LogValue::Score(r.score));
            },
            None => missing(v, 3),
        },
    }
    assert(v@ =~= start + ext_values(*e, k));
}

/// The log record of a run; its fields follow `generate_csv_header` for the
/// same enabled indicators.
pub fn generate_technical_csv_row(
    e: &LedgerEntry,
    enabled: &Vec<ExtensionIndicator>,
    snap: &FinalScoreSnapshot,
) -> (r: Vec<LogValue>)
    ensures
        r@ == record_spec(*e, enabled@, *snap),
        r@.len() == header_spec(enabled@).len(),
{
    let mut v: Vec<LogValue> = Vec::new();
    v.push(LogValue::Text(e.ticker.clone()));
    v.push(LogValue::Text(e.date.clone()));
    v.push(LogValue::Fixed { value: e.baseline.close, decimals: 2 });
    v.push(LogValue::Fixed { value: e.baseline.previous_close, decimals: 2 });
    v.push(LogValue::Signed(e.baseline.price_diff));
    v.push(LogValue::Signed(e.baseline.price_diff_percent));
    v.push(LogValue::Fixed { value: e.baseline.macd, decimals: 4 });
    v.push(LogValue::Fixed { value: e.baseline.signal, decimals: 4 });
    v.push(LogValue::Fixed { value: e.baseline.rsi, decimals: 2 });
    v.push(LogValue::Score(e.baseline.signal_score));
    assert(v@ =~= base_values(*e));
    let mut i: usize = 0;
    while i < enabled.len()
        invariant
            i <= enabled@.len(),
            v@ == base_values(*e) + ext_values_of(*e, enabled@.subrange(0, i as int)),
        decreases enabled@.len() - i,
    {
        let ghost pre = enabled@.subrange(0, i as int);
        assert(enabled@.subrange(0, i + 1).drop_last() =~= pre);
        push_ext_values(&mut v, e, enabled[i]);
        assert(v@ =~= base_values(*e) + ext_values_of(*e, enabled@.subrange(0, i + 1)));
        i = i + 1;
    }
    assert(enabled@.subrange(0, enabled@.len() as int) =~= enabled@);
    v.push(LogValue::Weighted(snap.total_score));
    proof {
        lemma_record_matches_header(*e, enabled@, *snap);
    }
    assert(v@ =~= record_spec(*e, enabled@, *snap));
    v
}

} // verus!
