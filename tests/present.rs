use tickwise::aggregate::{FinalScoreSnapshot, ScoreRatio};
use tickwise::indicator::{
    category_order, parse_stance, stance_caption, ExtensionIndicator, IndicatorCategory, Stance,
};
use tickwise::log_fields::{generate_csv_header, generate_technical_csv_row, LogValue};
use tickwise::ledger::{ExtensionReading, LedgerBuilder};
use tickwise::extension::RocReading;
use tickwise::baseline::BaselineReading;
use tickwise::narrative::{
    band_position, basic_summary, cross_state, line_gap, macd_trend, minus_allowance, BandPosition,
    BasicSummary, CrossState, LineGap, MacdTrend, MinusAllowance, EMA_EQ_EPS,
};
use tickwise::present::{
    action_level, buyer_percent, classify_score, holder_percent, render_bipolar_gauge_lr,
    render_unipolar_gauge_rtl, seller_percent, stance_percent, ActionLevel, GaugeColor, ScoreBand,
};

use ExtensionIndicator::{Bollinger, Ema, Fibonacci, Ichimoku, Stochastics, Vwap};

fn snap(ts: i64, tw: i64) -> FinalScoreSnapshot {
    let score_ratio = if tw > 0 { ScoreRatio { num: ts, den: tw } } else { ScoreRatio { num: 0, den: 1 } };
    FinalScoreSnapshot { total_score: ts, total_weight: tw, score_ratio }
}

#[test]
fn indicator_names_ignore_case() {
    assert_eq!(ExtensionIndicator::from_str("EMA").unwrap(), ExtensionIndicator::Ema);
    assert_eq!(ExtensionIndicator::from_str("Ichimoku").unwrap(), ExtensionIndicator::Ichimoku);
    assert_eq!(ExtensionIndicator::from_str("vwap").unwrap(), ExtensionIndicator::Vwap);
    let e = ExtensionIndicator::from_str("MACD").unwrap_err();
    assert_eq!(e.name, "MACD");
    assert_eq!(ExtensionIndicator::from_lowercase_name("EMA"), None);
}

#[test]
fn every_indicator_has_one_category() {
    assert_eq!(Ema.category(), IndicatorCategory::Trend);
    assert_eq!(Vwap.category(), IndicatorCategory::Trend);
    assert_eq!(Stochastics.category(), IndicatorCategory::Oscillator);
    assert_eq!(Bollinger.category(), IndicatorCategory::Volatility);
    assert_eq!(Fibonacci.category(), IndicatorCategory::SupportResist);
    assert_eq!(category_order().len(), 4);
    assert_eq!(Ichimoku.min_bars(), 26);
    assert_eq!(Fibonacci.min_bars(), 2);
}

#[test]
fn stances() {
    assert_eq!(parse_stance("buyer"), Stance::Buyer);
    assert_eq!(parse_stance("seller"), Stance::Seller);
    assert_eq!(parse_stance("anything"), Stance::Holder);
    assert_eq!(stance_caption(Stance::Seller), "Seller");
}

#[test]
fn classification_bands() {
    let c = |n: i64| classify_score(&ScoreRatio { num: n, den: 100 });
    assert_eq!(c(100), ScoreBand::StrongBuy);
    assert_eq!(c(80), ScoreBand::StrongBuy);
    assert_eq!(c(79), ScoreBand::BuyDominant);
    assert_eq!(c(40), ScoreBand::BuyLeaning);
    assert_eq!(c(20), ScoreBand::SlightlyBuy);
    assert_eq!(c(0), ScoreBand::BuyHint);
    assert_eq!(c(-1), ScoreBand::Neutral);
    assert_eq!(c(-20), ScoreBand::Neutral);
    assert_eq!(c(-21), ScoreBand::SellHint);
    assert_eq!(c(-60), ScoreBand::SlightlySell);
    assert_eq!(c(-80), ScoreBand::SellLeaning);
    assert_eq!(c(-81), ScoreBand::StrongSell);
    assert_eq!(ScoreBand::StrongBuy.label(), "🟢 強い買い");
    assert_eq!(ScoreBand::Neutral.color(), GaugeColor::White);
    assert_eq!(ScoreBand::SellHint.color(), GaugeColor::Orange);
}

#[test]
fn stance_percentages() {
    let s = snap(4000, 4000);
    assert_eq!(buyer_percent(&s), 100);
    assert_eq!(seller_percent(&s), 0);
    let s = snap(-2000, 2000);
    assert_eq!(buyer_percent(&s), 0);
    assert_eq!(seller_percent(&s), 100);
    assert_eq!(holder_percent(&s), -100);
    let s = snap(1000, 4000);
    assert_eq!(buyer_percent(&s), 63);
    assert_eq!(stance_percent(&s, Stance::Holder), 25);
    assert_eq!(stance_percent(&s, Stance::Seller), 37);
    let s = snap(0, 0);
    assert_eq!(buyer_percent(&s), 50);
    assert_eq!(holder_percent(&s), 0);
}

#[test]
fn action_levels() {
    assert_eq!(action_level(90), ActionLevel::Strong);
    assert_eq!(action_level(89), ActionLevel::Act);
    assert_eq!(action_level(61), ActionLevel::Act);
    assert_eq!(action_level(60), ActionLevel::Neutral);
    assert_eq!(action_level(40), ActionLevel::Neutral);
    assert_eq!(action_level(39), ActionLevel::Discourage);
    assert_eq!(action_level(19), ActionLevel::Refuse);
    assert_eq!(ActionLevel::Act.color(), GaugeColor::Yellow);
}

#[test]
fn unipolar_gauge() {
    let g = render_unipolar_gauge_rtl(60, "L", "R", 25);
    assert_eq!(g, format!("L [{}{}] R", ".".repeat(10), "█".repeat(15)));
    let g = render_unipolar_gauge_rtl(100, "a", "b", 3);
    assert_eq!(g, format!("a [{}] b", "█".repeat(10)));
}

#[test]
fn bipolar_gauge() {
    let cells = render_bipolar_gauge_lr(&ScoreRatio { num: 1, den: 2 }, 51);
    assert_eq!(cells.len(), 51);
    let s: String = cells.iter().collect();
    assert_eq!(s, format!("{}{}|{}", ".".repeat(12), "█".repeat(13), ".".repeat(25)));
    let cells = render_bipolar_gauge_lr(&ScoreRatio { num: -1, den: 1 }, 10);
    let s: String = cells.iter().collect();
    assert_eq!(s, format!("{}|{}", ".".repeat(6), "█".repeat(5)));
    let cells = render_bipolar_gauge_lr(&ScoreRatio { num: 0, den: 1 }, 12);
    let s: String = cells.iter().collect();
    assert_eq!(s, format!("{}|{}", ".".repeat(6), ".".repeat(5)));
}

#[test]
fn header_and_row_share_order() {
    let enabled = vec![ExtensionIndicator::Ema, ExtensionIndicator::Roc];
    let header = generate_csv_header(&enabled);
    assert_eq!(
        header,
        vec![
            "ticker", "date", "close", "prev_close", "diff", "diff_pct", "macd", "signal", "rsi",
            "score", "ema_short", "ema_long", "ema_score", "roc", "roc_score", "final_score"
        ]
    );
    let baseline = BaselineReading {
        close: 1_050_000,
        previous_close: 1_000_000,
        price_diff: 50_000,
        price_diff_percent: 50_000,
        rsi: 500_000,
        macd: 1,
        signal: 2,
        prev_macd: 3,
        prev_signal: 4,
        signal_score: 1,
    };
    let mut b = LedgerBuilder::new("SPY".to_string(), "S".to_string(), "2025-01-02".to_string(), baseline);
    b.record(ExtensionReading::Roc(RocReading { roc: 50_000, score: 1 }));
    let ledger = b.freeze();
    let row = generate_technical_csv_row(ledger.entry(), &enabled, &snap(2000, 6000));
    assert_eq!(row.len(), header.len());
    assert!(matches!(&row[0], LogValue::Text(t) if t == "SPY"));
    assert!(matches!(row[10], LogValue::Missing));
    assert!(matches!(row[13], LogValue::Fixed { value: 50_000, decimals: 2 }));
    assert!(matches!(row[14], LogValue::Score(1)));
    assert!(matches!(row[15], LogValue::Weighted(2000)));
}

#[test]
fn narrative_rules() {
    assert_eq!(cross_state(10_101, 10_000, EMA_EQ_EPS), CrossState::Golden);
    assert_eq!(cross_state(10_100, 10_000, EMA_EQ_EPS), CrossState::Level);
    assert_eq!(cross_state(1, 2, 0), CrossState::Dead);
    assert_eq!(macd_trend(2, 1, 0, 1), MacdTrend::GoldenCross);
    assert_eq!(macd_trend(2, 1, 2, 1), MacdTrend::StaysAbove);
    assert_eq!(macd_trend(0, 1, 2, 1), MacdTrend::DeadCross);
    assert_eq!(macd_trend(0, 1, 0, 1), MacdTrend::StaysBelow);
    assert_eq!(macd_trend(1, 1, 0, 1), MacdTrend::Flat);
    assert_eq!(basic_summary(2, 250_000), BasicSummary::StrongBuyOnRsi);
    assert_eq!(basic_summary(-2, 650_000), BasicSummary::StrongSellOnMacd);
    assert_eq!(minus_allowance(true, -5, -7), MinusAllowance::Applied);
    assert_eq!(minus_allowance(false, -5, -7), MinusAllowance::Disabled);
    assert_eq!(band_position(10_001), BandPosition::AboveUpper);
    assert_eq!(band_position(0), BandPosition::Inside);
    assert_eq!(line_gap(1_005_000, 1_000_000), LineGap::Close);
    assert_eq!(line_gap(1_060_000, 1_000_000), LineGap::Wide);
    assert_eq!(line_gap(5, 0), LineGap::Undefined);
}
