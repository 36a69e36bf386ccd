use tickwise::aggregate::{calculate_final_score_snapshot, ScoreRatio, Weights};
use tickwise::bars::Bar;
use tickwise::baseline::{evaluate_baseline, signal_score, BaselineReading, BaselineThresholds, MomentumInputs};
use tickwise::extension::{
    evaluate_adx, evaluate_bollinger, evaluate_ema, evaluate_fibonacci, evaluate_ichimoku,
    evaluate_roc, evaluate_sma, evaluate_stochastics, evaluate_vwap, EmaReading, EvalError,
};
use tickwise::indicator::ExtensionIndicator;
use tickwise::ledger::{
    evaluate_all_selected_extensions, ExtensionReading, ExternalAverages, LedgerBuilder,
};
use tickwise::present::{classify_score, ScoreBand};
use tickwise::score::{cross_band_score, fib_band_score};

const U: u64 = 10_000;

fn bar(h: u64, l: u64, c: u64) -> Bar {
    Bar::new("2025-01-01".to_string(), h * U, l * U, c * U)
}

fn flat(c: u64) -> Bar {
    bar(c, c, c)
}

fn thresholds(ok: bool) -> BaselineThresholds {
    BaselineThresholds {
        buy_rsi: 300_000,
        sell_rsi: 700_000,
        macd_diff_low: 20_000,
        macd_diff_mid: 100_000,
        macd_minus_ok: ok,
    }
}

fn momentum(rsi: i64, macd: i64, signal: i64) -> MomentumInputs {
    MomentumInputs { rsi, macd, signal, prev_macd: macd, prev_signal: signal }
}

fn weights_all(w: u32) -> Weights {
    Weights {
        basic: w,
        ema: w,
        sma: w,
        bollinger: w,
        roc: w,
        adx: w,
        stochastics: w,
        fibonacci: w,
        vwap: w,
        ichimoku: w,
    }
}

fn baseline_with_score(score: i8) -> BaselineReading {
    BaselineReading {
        close: 1_000_000,
        previous_close: 1_000_000,
        price_diff: 0,
        price_diff_percent: 0,
        rsi: 500_000,
        macd: 0,
        signal: 0,
        prev_macd: 0,
        prev_signal: 0,
        signal_score: score,
    }
}

#[test]
fn scenario_a_two_bars_baseline() {
    let bars = vec![flat(100), flat(105)];
    let r = evaluate_baseline(&bars, momentum(500_000, 0, 0), &thresholds(false)).unwrap();
    assert_eq!(r.close, 1_050_000);
    assert_eq!(r.previous_close, 1_000_000);
    assert_eq!(r.price_diff, 50_000);
    assert_eq!(r.price_diff_percent, 50_000);
}

#[test]
fn baseline_needs_two_bars() {
    let bars = vec![flat(100)];
    let r = evaluate_baseline(&bars, momentum(500_000, 0, 0), &thresholds(false));
    assert_eq!(r, Err(EvalError::InsufficientData { required: 2, available: 1 }));
}

#[test]
fn baseline_zero_previous_close_is_neutral_percent() {
    let bars = vec![flat(0), flat(5)];
    let r = evaluate_baseline(&bars, momentum(500_000, 0, 0), &thresholds(false)).unwrap();
    assert_eq!(r.price_diff, 50_000);
    assert_eq!(r.price_diff_percent, 0);
}

#[test]
fn baseline_table_rows() {
    let th = thresholds(false);
    // rising, RSI high, huge gap
    assert_eq!(signal_score(2_000_000, 0, 800_000, &th), -2);
    // rising, RSI high
    assert_eq!(signal_score(50_000, 30_000, 800_000, &th), -1);
    // falling, RSI high
    assert_eq!(signal_score(30_000, 50_000, 800_000, &th), -1);
    // rising, RSI low
    assert_eq!(signal_score(50_000, 30_000, 200_000, &th), 2);
    // falling, RSI low
    assert_eq!(signal_score(50_000, 60_000, 200_000, &th), 1);
    // rising, neutral RSI, small gap
    assert_eq!(signal_score(50_000, 40_000, 500_000, &th), 1);
    // rising, neutral RSI, larger gap
    assert_eq!(signal_score(80_000, 30_000, 500_000, &th), 2);
    // falling, neutral RSI, small gap
    assert_eq!(signal_score(40_000, 50_000, 500_000, &th), 0);
    // falling, neutral RSI, larger gap
    assert_eq!(signal_score(30_000, 80_000, 500_000, &th), -1);
    // level
    assert_eq!(signal_score(30_000, 30_000, 500_000, &th), 0);
}

#[test]
fn baseline_gate_clamps_buy_below_zero() {
    let th = thresholds(false);
    // falling with low RSI would give +1; MACD below zero clamps it
    assert_eq!(signal_score(-60_000, -50_000, 200_000, &th), 0);
    // rising below zero does not count as rising without the allowance
    assert_eq!(signal_score(-30_000, -50_000, 200_000, &th), 0);
    for rsi in [0, 100_000, 300_000, 500_000, 700_000, 1_000_000] {
        assert!(signal_score(-30_000, -50_000, rsi, &th) <= 0);
        assert!(signal_score(-60_000, -50_000, rsi, &th) <= 0);
    }
    // with the allowance, rising below zero with low RSI is a strong buy
    assert_eq!(signal_score(-30_000, -50_000, 200_000, &thresholds(true)), 2);
}

#[test]
fn scenario_b_ema_diff() {
    let bars: Vec<Bar> = (0..20).map(|_| flat(20)).collect();
    let r = evaluate_ema(&bars, 225_000, 200_000).unwrap();
    assert_eq!(r, EmaReading { short: 225_000, long: 200_000, score: 2 });
}

#[test]
fn ema_needs_twenty_bars() {
    let bars: Vec<Bar> = (0..19).map(|_| flat(20)).collect();
    assert_eq!(
        evaluate_ema(&bars, 225_000, 200_000),
        Err(EvalError::InsufficientData { required: 20, available: 19 })
    );
}

#[test]
fn cross_band_edges() {
    assert_eq!(cross_band_score(20_001, 1), 2);
    assert_eq!(cross_band_score(20_000, 1), 1);
    assert_eq!(cross_band_score(5_001, 1), 1);
    assert_eq!(cross_band_score(5_000, 1), 0);
    assert_eq!(cross_band_score(-5_000, 1), 0);
    assert_eq!(cross_band_score(-5_001, 1), -1);
    assert_eq!(cross_band_score(-20_000, 1), -1);
    assert_eq!(cross_band_score(-20_001, 1), -2);
}

#[test]
fn cross_band_is_monotonic() {
    let mut prev = cross_band_score(-100_000, 1);
    for d in -100_000..100_000i128 {
        let s = cross_band_score(d, 1);
        assert!(s >= prev);
        assert!((-2..=2).contains(&s));
        prev = s;
    }
}

#[test]
fn sma_on_a_ramp() {
    let bars: Vec<Bar> = (1..=20).map(flat).collect();
    let r = evaluate_sma(&bars).unwrap();
    assert_eq!(r.short, 180_000);
    assert_eq!(r.long, 105_000);
    assert_eq!(r.score, 2);
}

#[test]
fn sma_needs_twenty_bars() {
    let bars: Vec<Bar> = (1..=19).map(flat).collect();
    assert_eq!(evaluate_sma(&bars), Err(EvalError::InsufficientData { required: 20, available: 19 }));
}

#[test]
fn roc_values() {
    let bars: Vec<Bar> = (1..=11).map(flat).collect();
    let r = evaluate_roc(&bars).unwrap();
    assert_eq!(r.roc, 10_000_000);
    assert_eq!(r.score, 2);
    let mut bars: Vec<Bar> = (0..11).map(|_| flat(100)).collect();
    bars[10] = flat(105);
    let r = evaluate_roc(&bars).unwrap();
    assert_eq!(r.roc, 50_000);
    assert_eq!(r.score, 1);
    bars[0] = flat(0);
    let r = evaluate_roc(&bars).unwrap();
    assert_eq!((r.roc, r.score), (0, 0));
}

#[test]
fn roc_needs_eleven_bars() {
    let bars: Vec<Bar> = (1..=10).map(flat).collect();
    assert_eq!(evaluate_roc(&bars), Err(EvalError::InsufficientData { required: 11, available: 10 }));
}

#[test]
fn vwap_values() {
    let mut bars: Vec<Bar> = (0..14).map(|_| flat(100)).collect();
    let r = evaluate_vwap(&bars).unwrap();
    assert_eq!((r.vwap, r.score), (1_000_000, 0));
    bars[13] = bar(110, 100, 110);
    let r = evaluate_vwap(&bars).unwrap();
    assert_eq!(r.vwap, 1_004_762);
    assert_eq!(r.score, 2);
}

#[test]
fn vwap_needs_fourteen_bars() {
    let bars: Vec<Bar> = (0..13).map(|_| flat(100)).collect();
    assert_eq!(evaluate_vwap(&bars), Err(EvalError::InsufficientData { required: 14, available: 13 }));
}

#[test]
fn ichimoku_values() {
    let mut bars: Vec<Bar> = (0..17).map(|_| bar(120, 80, 100)).collect();
    bars.extend((0..9).map(|_| bar(110, 100, 105)));
    let r = evaluate_ichimoku(&bars).unwrap();
    assert_eq!(r.tenkan, 1_050_000);
    assert_eq!(r.kijun, 1_000_000);
    assert_eq!(r.score, 2);
}

#[test]
fn ichimoku_needs_twenty_six_bars() {
    let bars: Vec<Bar> = (0..25).map(|_| flat(100)).collect();
    assert_eq!(
        evaluate_ichimoku(&bars),
        Err(EvalError::InsufficientData { required: 26, available: 25 })
    );
}

#[test]
fn adx_on_steady_rise() {
    let bars: Vec<Bar> = (0..15).map(|i| bar(100 + i, 90 + i, 95 + i)).collect();
    let r = evaluate_adx(&bars).unwrap();
    assert_eq!(r.adx, 1_000_000);
    assert_eq!(r.score, 2);
}

#[test]
fn adx_without_movement_is_zero() {
    let bars: Vec<Bar> = (0..15).map(|_| flat(100)).collect();
    let r = evaluate_adx(&bars).unwrap();
    assert_eq!((r.adx, r.score), (0, -2));
}

#[test]
fn adx_needs_fifteen_bars() {
    let bars: Vec<Bar> = (0..14).map(|_| flat(100)).collect();
    assert_eq!(evaluate_adx(&bars), Err(EvalError::InsufficientData { required: 15, available: 14 }));
}

#[test]
fn stochastics_values() {
    let mut bars: Vec<Bar> = (0..14).map(|_| bar(110, 90, 100)).collect();
    bars[13] = bar(110, 90, 108);
    let r = evaluate_stochastics(&bars).unwrap();
    assert_eq!(r.k, 900_000);
    assert_eq!(r.d, 633_333);
    assert_eq!(r.score, -2);
}

#[test]
fn stochastics_flat_window_scores_as_zero_k() {
    let bars: Vec<Bar> = (0..14).map(|_| flat(100)).collect();
    let r = evaluate_stochastics(&bars).unwrap();
    assert_eq!((r.k, r.d, r.score), (0, 0, 2));
}

#[test]
fn stochastics_needs_fourteen_bars() {
    let bars: Vec<Bar> = (0..13).map(|_| flat(100)).collect();
    assert_eq!(
        evaluate_stochastics(&bars),
        Err(EvalError::InsufficientData { required: 14, available: 13 })
    );
}

#[test]
fn scenario_d_bollinger_lower_band_equality() {
    let bars: Vec<Bar> = (0..20).map(|_| flat(90)).collect();
    let r = evaluate_bollinger(&bars, 1_100_000, 900_000).unwrap();
    assert_eq!(r.percent_b, 0);
    assert_eq!(r.bandwidth, 200_000);
    // a breach needs a strict inequality: the close on the lower band is no breach
    assert_eq!(r.score, 0);
}

#[test]
fn bollinger_breaches() {
    let mut bars: Vec<Bar> = (0..20).map(|_| flat(100)).collect();
    bars[19] = flat(120);
    assert_eq!(evaluate_bollinger(&bars, 1_100_000, 900_000).unwrap().score, -2);
    bars[19] = flat(111);
    assert_eq!(evaluate_bollinger(&bars, 1_100_000, 900_000).unwrap().score, -1);
    bars[19] = flat(80);
    assert_eq!(evaluate_bollinger(&bars, 1_100_000, 900_000).unwrap().score, 2);
    bars[19] = bar(90, 89, 89);
    let r = evaluate_bollinger(&bars, 1_100_000, 900_000).unwrap();
    assert_eq!(r.score, 1);
    assert_eq!(r.percent_b, -500);
    let r = evaluate_bollinger(&bars, 900_000, 900_000).unwrap();
    assert_eq!(r.percent_b, 0);
}

#[test]
fn bollinger_needs_twenty_bars() {
    let bars: Vec<Bar> = (0..19).map(|_| flat(100)).collect();
    assert_eq!(
        evaluate_bollinger(&bars, 1_100_000, 900_000),
        Err(EvalError::InsufficientData { required: 20, available: 19 })
    );
}

#[test]
fn fibonacci_levels_and_midpoint() {
    let bars = vec![bar(120, 100, 110), bar(115, 105, 110)];
    let r = evaluate_fibonacci(&bars).unwrap();
    let l = r.levels.unwrap();
    assert_eq!((l.f38, l.f50, l.f62), (1_123_600, 1_100_000, 1_076_400));
    assert_eq!(r.score, 0);
    // same window, same result
    assert_eq!(evaluate_fibonacci(&bars).unwrap(), r);
}

#[test]
fn fibonacci_just_above_38_is_strong() {
    let bars = vec![bar(120, 100, 110), Bar::new("d".to_string(), 1_150_000, 1_050_000, 1_123_601)];
    assert_eq!(evaluate_fibonacci(&bars).unwrap().score, 2);
}

#[test]
fn fibonacci_bands_below() {
    let bars = vec![bar(120, 100, 110), bar(115, 101, 107)];
    assert_eq!(evaluate_fibonacci(&bars).unwrap().score, -2);
    let bars = vec![bar(120, 100, 110), bar(115, 101, 108)];
    assert_eq!(evaluate_fibonacci(&bars).unwrap().score, -1);
    let bars = vec![bar(120, 100, 110), bar(115, 101, 112)];
    assert_eq!(evaluate_fibonacci(&bars).unwrap().score, 1);
    assert_eq!(fib_band_score(1000, 2000, 0, -2000), 0);
}

#[test]
fn fibonacci_without_span_is_neutral() {
    let bars = vec![flat(100), flat(100)];
    let r = evaluate_fibonacci(&bars).unwrap();
    assert_eq!(r.levels, None);
    assert_eq!(r.score, 0);
}

#[test]
fn fibonacci_needs_two_bars() {
    let bars = vec![flat(100)];
    assert_eq!(evaluate_fibonacci(&bars), Err(EvalError::InsufficientData { required: 2, available: 1 }));
}

#[test]
fn scenario_c_full_buy() {
    let mut b = LedgerBuilder::new("X".to_string(), "X".to_string(), "d".to_string(), baseline_with_score(2));
    b.record(ExtensionReading::Ema(EmaReading { short: 225_000, long: 200_000, score: 2 }));
    let ledger = b.freeze();
    let w = weights_all(1000);
    let snap = calculate_final_score_snapshot(&w, &vec![ExtensionIndicator::Ema], &ledger);
    assert_eq!(snap.total_score, 4000);
    assert_eq!(snap.total_weight, 4000);
    assert_eq!(snap.score_ratio, ScoreRatio { num: 4000, den: 4000 });
    assert_eq!(snap.score_ratio.fixed(), 10_000);
    assert_eq!(classify_score(&snap.score_ratio), ScoreBand::StrongBuy);
}

#[test]
fn scenario_e_full_sell_without_extensions() {
    let ledger = LedgerBuilder::new("X".to_string(), "X".to_string(), "d".to_string(), baseline_with_score(-2)).freeze();
    let snap = calculate_final_score_snapshot(&weights_all(1000), &vec![], &ledger);
    assert_eq!(snap.total_weight, 2000);
    assert_eq!(snap.total_score, -2000);
    assert_eq!(snap.score_ratio.num, -snap.score_ratio.den);
    assert_eq!(snap.score_ratio.fixed(), -10_000);
    assert_eq!(snap.score_ratio.percent(), -100);
}

#[test]
fn total_weight_counts_failed_extensions() {
    let bars: Vec<Bar> = (0..12).map(|i| flat(100 + i)).collect();
    let enabled = vec![ExtensionIndicator::Roc, ExtensionIndicator::Adx, ExtensionIndicator::Fibonacci];
    let ext = ExternalAverages { ema_short: 0, ema_long: 0, bb_upper: 0, bb_lower: 0 };
    let mut b = LedgerBuilder::new("X".to_string(), "X".to_string(), "d".to_string(), baseline_with_score(1));
    let failures = evaluate_all_selected_extensions(&enabled, &bars, &ext, &mut b);
    assert_eq!(failures, vec![(ExtensionIndicator::Adx, EvalError::InsufficientData { required: 15, available: 12 })]);
    let ledger = b.freeze();
    assert!(ledger.entry().adx.is_none());
    assert!(ledger.entry().roc.is_some());
    let w = Weights { basic: 1000, roc: 500, adx: 2000, fibonacci: 1500, ..weights_all(0) };
    let snap = calculate_final_score_snapshot(&w, &enabled, &ledger);
    assert_eq!(snap.total_weight, 2 * (1000 + 500 + 2000 + 1500));
    let roc = ledger.entry().roc.unwrap().score as i64;
    let fib = ledger.entry().fibonacci.unwrap().score as i64;
    assert_eq!(snap.total_score, 1000 + roc * 500 + fib * 1500);
}

#[test]
fn listed_twice_is_evaluated_once() {
    let bars: Vec<Bar> = (0..12).map(|i| flat(100 + i)).collect();
    let enabled = vec![ExtensionIndicator::Roc, ExtensionIndicator::Roc];
    let ext = ExternalAverages { ema_short: 0, ema_long: 0, bb_upper: 0, bb_lower: 0 };
    let mut b = LedgerBuilder::new("X".to_string(), "X".to_string(), "d".to_string(), baseline_with_score(0));
    let failures = evaluate_all_selected_extensions(&enabled, &bars, &ext, &mut b);
    assert!(failures.is_empty());
    assert!(b.holds(ExtensionIndicator::Roc));
}

#[test]
fn zero_weight_gives_zero_ratio() {
    let ledger = LedgerBuilder::new("X".to_string(), "X".to_string(), "d".to_string(), baseline_with_score(2)).freeze();
    let snap = calculate_final_score_snapshot(&weights_all(0), &vec![ExtensionIndicator::Sma], &ledger);
    assert_eq!(snap.total_weight, 0);
    assert_eq!(snap.score_ratio.num, 0);
    assert_eq!(snap.score_ratio.fixed(), 0);
}

#[test]
fn ratio_stays_within_unit_range() {
    let bars: Vec<Bar> = (0..30).map(|i| bar(100 + 2 * i, 95 + i, 99 + 2 * i)).collect();
    let enabled = vec![
        ExtensionIndicator::Ema,
        ExtensionIndicator::Sma,
        ExtensionIndicator::Roc,
        ExtensionIndicator::Adx,
        ExtensionIndicator::Stochastics,
        ExtensionIndicator::Bollinger,
        ExtensionIndicator::Fibonacci,
        ExtensionIndicator::Vwap,
        ExtensionIndicator::Ichimoku,
    ];
    let ext = ExternalAverages { ema_short: 1_500_000, ema_long: 1_300_000, bb_upper: 1_600_000, bb_lower: 1_200_000 };
    for basic in [-2i8, 2] {
        let mut b = LedgerBuilder::new("X".to_string(), "X".to_string(), "d".to_string(), baseline_with_score(basic));
        let failures = evaluate_all_selected_extensions(&enabled, &bars, &ext, &mut b);
        assert!(failures.is_empty());
        let ledger = b.freeze();
        for k in &enabled {
            let s = ledger.entry().score(*k).unwrap();
            assert!((-2..=2).contains(&s));
        }
        let snap = calculate_final_score_snapshot(&weights_all(1300), &enabled, &ledger);
        let r = snap.score_ratio;
        assert!(r.den > 0 && -r.den <= r.num && r.num <= r.den);
        assert!((-10_000..=10_000).contains(&r.fixed()));
    }
}
