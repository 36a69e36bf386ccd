//! The decisions behind the narrative lines of each indicator: which remark
//! applies to a reading.  Values are fixed point (see `fixed::SCALE`).
use vstd::prelude::*;
use crate::fixed::{abs, SCALE};

verus! {

/// Where the short line stands against the long one.
#[derive(Clone, Copy, Debug, PartialEq, Eq, Structural)]
pub enum CrossState {
    Golden,
    Dead,
    Level,
}

pub open spec fn cross_state_spec(short: int, long: int, eps: int) -> CrossState {
    if short - long > eps {
        CrossState::Golden
    } else if short - long < -eps {
        CrossState::Dead
    } else {
        CrossState::Level
    }
}

/// The cross state with a dead zone of `eps` around equality.
pub fn cross_state(short: i64, long: i64, eps: i64) -> (r: CrossState)
    requires
        eps >= 0,
    ensures
        r == cross_state_spec(short as int, long as int, eps as int),
{
    let d = short as i128 - long as i128;
    if d > eps as i128 {
        CrossState::Golden
    } else if d < -(eps as i128) {
        CrossState::Dead
    } else {
        CrossState::Level
    }
}

/// Dead zone of the EMA cross remark: 0.01.
pub const EMA_EQ_EPS: i64 = 100;

/// The MACD's movement against its signal line over the last two bars.
#[derive(Clone, Copy, Debug, PartialEq, Eq, Structural)]
pub enum MacdTrend {
    GoldenCross,
    StaysAbove,
    DeadCross,
    StaysBelow,
    Flat,
}

pub open spec fn macd_trend_spec(macd: int, signal: int, prev_macd: int, prev_signal: int) -> MacdTrend {
    if prev_macd < prev_signal && macd > signal {
        MacdTrend::GoldenCross
    } else if macd > signal {
        MacdTrend::StaysAbove
    } else if prev_macd > prev_signal && macd < signal {
        MacdTrend::DeadCross
    } else if macd < signal {
        MacdTrend::StaysBelow
    } else {
        MacdTrend::Flat
    }
}

pub fn macd_trend(macd: i64, signal: i64, prev_macd: i64, prev_signal: i64) -> (r: MacdTrend)
    ensures
        r == macd_trend_spec(macd as int, signal as int, prev_macd as int, prev_signal as int),
{
    if prev_macd < prev_signal && macd > signal {
        MacdTrend::GoldenCross
    } else if macd > signal {
        MacdTrend::StaysAbove
    } else if prev_macd > prev_signal && macd < signal {
        MacdTrend::DeadCross
    } else if macd < signal {
        MacdTrend::StaysBelow
    } else {
        MacdTrend::Flat
    }
}

/// A remark on a value that is extreme on the high or the low side.
#[derive(Clone, Copy, Debug, PartialEq, Eq, Structural)]
pub enum Extreme {
    High,
    Low,
    Ordinary,
}

pub open spec fn extreme_spec(v: int, high_from: int, low_to: int) -> Extreme {
    if v >= high_from {
        Extreme::High
    } else if v <= low_to {
        Extreme::Low
    } else {
        Extreme::Ordinary
    }
}

/// `High` from `high_from` up, otherwise `Low` up to `low_to`.
pub fn extreme(v: i64, high_from: i64, low_to: i64) -> (r: Extreme)
    ensures
        r == extreme_spec(v as int, high_from as int, low_to as int),
{
    if v >= high_from {
        Extreme::High
    } else if v <= low_to {
        Extreme::Low
    } else {
        Extreme::Ordinary
    }
}

/// MACD far from its signal: by 5 or more either way.
pub fn macd_gap(macd: i64, signal: i64) -> (r: Extreme)
    requires
        -1_000_000_000_000_000 <= macd <= 1_000_000_000_000_000,
        -1_000_000_000_000_000 <= signal <= 1_000_000_000_000_000,
    ensures
        r == extreme_spec(macd - signal, 5 * SCALE, -5 * SCALE),
{
    extreme(macd - signal, 50_000, -50_000)
}

/// RSI at an extreme: 95 and above, or 5 and below.
pub fn rsi_extreme(rsi: i64) -> (r: Extreme)
    ensures
        r == extreme_spec(rsi as int, 95 * SCALE, 5 * SCALE),
{
    extreme(rsi, 950_000, 50_000)
}

/// ADX at an extreme: 50 and above, or 10 and below.
pub fn adx_extreme(adx: i64) -> (r: Extreme)
    ensures
        r == extreme_spec(adx as int, 50 * SCALE, 10 * SCALE),
{
    extreme(adx, 500_000, 100_000)
}

/// Rate of change at an extreme: +15% and above, or -15% and below.
pub fn roc_extreme(roc: i64) -> (r: Extreme)
    ensures
        r == extreme_spec(roc as int, 15 * SCALE, -15 * SCALE),
{
    extreme(roc, 150_000, -150_000)
}

/// Why the baseline scored what it did, for its summary line.
#[derive(Clone, Copy, Debug, PartialEq, Eq, Structural)]
pub enum BasicSummary {
    StrongBuyOnRsi,
    StrongBuyOnMacd,
    BuyOnRsi,
    BuyOnMacd,
    Neutral,
    SellOnRsi,
    SellOnMacd,
    StrongSellOnRsi,
    StrongSellOnMacd,
    Unknown,
}

pub open spec fn basic_summary_spec(score: int, rsi: int) -> BasicSummary {
    if score == 2 {
        if rsi < 30 * SCALE {
            BasicSummary::StrongBuyOnRsi
        } else {
            BasicSummary::StrongBuyOnMacd
        }
    } else if score == 1 {
        if rsi < 40 * SCALE {
            BasicSummary::BuyOnRsi
        } else {
            BasicSummary::BuyOnMacd
        }
    } else if score == 0 {
        BasicSummary::Neutral
    } else if score == -1 {
        if rsi > 60 * SCALE {
            BasicSummary::SellOnRsi
        } else {
            BasicSummary::SellOnMacd
        }
    } else if score == -2 {
        if rsi > 70 * SCALE {
            BasicSummary::StrongSellOnRsi
        } else {
            BasicSummary::StrongSellOnMacd
        }
    } else {
        BasicSummary::Unknown
    }
}

pub fn basic_summary(score: i8, rsi: i64) -> (r: BasicSummary)
    ensures
        r == basic_summary_spec(score as int, rsi as int),
{
    if score == 2 {
        if rsi < 300_000 {
            BasicSummary::StrongBuyOnRsi
        } else {
            BasicSummary::StrongBuyOnMacd
        }
    } else if score == 1 {
        if rsi < 400_000 {
            BasicSummary::BuyOnRsi
        } else {
            BasicSummary::BuyOnMacd
        }
    } else if score == 0 {
        BasicSummary::Neutral
    } else if score == -1 {
        if rsi > 600_000 {
            BasicSummary::SellOnRsi
        } else {
            BasicSummary::SellOnMacd
        }
    } else if score == -2 {
        if rsi > 700_000 {
            BasicSummary::StrongSellOnRsi
        } else {
            BasicSummary::StrongSellOnMacd
        }
    } else {
        BasicSummary::Unknown
    }
}

/// How the MACD-below-zero allowance bears on this run.
#[derive(Clone, Copy, Debug, PartialEq, Eq, Structural)]
pub enum MinusAllowance {
    Disabled,
    /// Enabled, and the MACD is below zero yet above its signal.
    Applied,
    NotApplied,
}

pub open spec fn minus_allowance_spec(ok: bool, macd: int, signal: int) -> MinusAllowance {
    if !ok {
        MinusAllowance::Disabled
    } else if macd < 0 && macd > signal {
        MinusAllowance::Applied
    } else {
        MinusAllowance::NotApplied
    }
}

pub fn minus_allowance(ok: bool, macd: i64, signal: i64) -> (r: MinusAllowance)
    ensures
        r == minus_allowance_spec(ok, macd as int, signal as int),
{
    if !ok {
        MinusAllowance::Disabled
    } else if macd < 0 && macd > signal {
        MinusAllowance::Applied
    } else {
        MinusAllowance::NotApplied
    }
}

/// Where %B puts the close.
#[derive(Clone, Copy, Debug, PartialEq, Eq, Structural)]
pub enum BandPosition {
    AboveUpper,
    BelowLower,
    Inside,
}

pub open spec fn band_position_spec(percent_b: int) -> BandPosition {
    if percent_b > SCALE {
        BandPosition::AboveUpper
    } else if percent_b < 0 {
        BandPosition::BelowLower
    } else {
        BandPosition::Inside
    }
}

/// Position of the close from %B (fixed point): above 1, below 0, or inside.
pub fn band_position(percent_b: i64) -> (r: BandPosition)
    ensures
        r == band_position_spec(percent_b as int),
{
    if percent_b > 10_000 {
        BandPosition::AboveUpper
    } else if percent_b < 0 {
        BandPosition::BelowLower
    } else {
        BandPosition::Inside
    }
}

/// Whether the bandwidth (a fixed-point percentage) is at or below the
/// squeeze threshold.
pub fn is_squeeze(bandwidth: i64, threshold: i64) -> (r: bool)
    ensures
        r == (bandwidth <= threshold),
{
    bandwidth <= threshold
}

/// Distance of the conversion line from the base line, relative to the base.
#[derive(Clone, Copy, Debug, PartialEq, Eq, Structural)]
pub enum LineGap {
    /// Under 1%.
    Close,
    /// Over 5%.
    Wide,
    Moderate,
    /// The base line is 0.
    Undefined,
}

pub open spec fn line_gap_spec(tenkan: int, kijun: int) -> LineGap {
    if kijun == 0 {
        LineGap::Undefined
    } else if 100 * abs(tenkan - kijun) < abs(kijun) {
        LineGap::Close
    } else if 100 * abs(tenkan - kijun) > 5 * abs(kijun) {
        LineGap::Wide
    } else {
        LineGap::Moderate
    }
}

pub fn line_gap(tenkan: i64, kijun: i64) -> (r: LineGap)
    ensures
        r == line_gap_spec(tenkan as int, kijun as int),
{
    if kijun == 0 {
        return LineGap::Undefined;
    }
    let d = tenkan as i128 - kijun as i128;
    let gap = if d < 0 {
        -d
    } else {
        d
    };
    let base = if kijun < 0 {
        -(kijun as i128)
    } else {
        kijun as i128
    };
    if 100 * gap < base {
        LineGap::Close
    } else if 100 * gap > 5 * base {
        LineGap::Wide
    } else {
        LineGap::Moderate
    }
}

} // verus!
