//! Presentation: classification bands, stance percentages and verdicts, and
//! the textual gauges.
use vstd::prelude::*;
use crate::aggregate::{FinalScoreSnapshot, ScoreRatio};
use crate::fixed::{lemma_round_div_at_most, round_div, round_div_exec};
use crate::indicator::Stance;

verus! {

/// The ten bands of the score ratio, from >= 0.8 down to below -0.8.
#[derive(Clone, Copy, Debug, PartialEq, Eq, Structural)]
pub enum ScoreBand {
    StrongBuy,
    BuyDominant,
    BuyLeaning,
    SlightlyBuy,
    BuyHint,
    Neutral,
    SellHint,
    SlightlySell,
    SellLeaning,
    StrongSell,
}

/// Colour of a gauge's fill.
#[derive(Clone, Copy, Debug, PartialEq, Eq, Structural)]
pub enum GaugeColor {
    Green,
    Yellow,
    White,
    Orange,
    Red,
}

/// The band of the ratio `num / den` (`den > 0`).
pub open spec fn classify_spec(num: int, den: int) -> ScoreBand {
    if 10 * num >= 8 * den {
        ScoreBand::StrongBuy
    } else if 10 * num >= 6 * den {
        ScoreBand::BuyDominant
    } else if 10 * num >= 4 * den {
        ScoreBand::BuyLeaning
    } else if 10 * num >= 2 * den {
        ScoreBand::SlightlyBuy
    } else if num >= 0 {
        ScoreBand::BuyHint
    } else if 10 * num >= -2 * den {
        ScoreBand::Neutral
    } else if 10 * num >= -4 * den {
        ScoreBand::SellHint
    } else if 10 * num >= -6 * den {
        ScoreBand::SlightlySell
    } else if 10 * num >= -8 * den {
        ScoreBand::SellLeaning
    } else {
        ScoreBand::StrongSell
    }
}

/// Classifies a score ratio.
pub fn classify_score(ratio: &ScoreRatio) -> (r: ScoreBand)
    requires
        ratio.den > 0,
    ensures
        r == classify_spec(ratio.num as int, ratio.den as int),
{
    let num = ratio.num as i128;
    let den = ratio.den as i128;
    if 10 * num >= 8 * den {
        ScoreBand::StrongBuy
    } else if 10 * num >= 6 * den {
        ScoreBand::BuyDominant
    } else if 10 * num >= 4 * den {
        ScoreBand::BuyLeaning
    } else if 10 * num >= 2 * den {
        ScoreBand::SlightlyBuy
    } else if num >= 0 {
        ScoreBand::BuyHint
    } else if 10 * num >= -2 * den {
        ScoreBand::Neutral
    } else if 10 * num >= -4 * den {
        ScoreBand::SellHint
    } else if 10 * num >= -6 * den {
        ScoreBand::SlightlySell
    } else if 10 * num >= -8 * den {
        ScoreBand::SellLeaning
    } else {
        ScoreBand::StrongSell
    }
}

impl ScoreBand {
    pub open spec fn color_spec(self) -> GaugeColor {
        match self {
            ScoreBand::StrongBuy | ScoreBand::BuyDominant | ScoreBand::BuyLeaning => GaugeColor::Green,
            ScoreBand::SlightlyBuy | ScoreBand::BuyHint => GaugeColor::Yellow,
            ScoreBand::Neutral => GaugeColor::White,
            ScoreBand::SellHint | ScoreBand::SlightlySell => GaugeColor::Orange,
            ScoreBand::SellLeaning | ScoreBand::StrongSell => GaugeColor::Red,
        }
    }

    /// The fill colour that goes with the band.
    pub fn color(&self) -> (r: GaugeColor)
        ensures
            r == self.color_spec(),
    {
        match self {
            ScoreBand::StrongBuy | ScoreBand::BuyDominant | ScoreBand::BuyLeaning => GaugeColor::Green,
            ScoreBand::SlightlyBuy | ScoreBand::BuyHint => GaugeColor::Yellow,
            ScoreBand::Neutral => GaugeColor::White,
            ScoreBand::SellHint | ScoreBand::SlightlySell => GaugeColor::Orange,
            ScoreBand::SellLeaning | ScoreBand::StrongSell => GaugeColor::Red,
        }
    }

    /// The band's label.
    pub fn label(&self) -> (r: &'static str)
        ensures
            *self == ScoreBand::StrongBuy ==> r@ == "🟢 強い買い"@,
            *self == ScoreBand::BuyDominant ==> r@ == "🟢 買い優勢"@,
            *self == ScoreBand::BuyLeaning ==> r@ == "🟢 買い傾向あり"@,
            *self == ScoreBand::SlightlyBuy ==> r@ == "🟡 やや買い寄り"@,
            *self == ScoreBand::BuyHint ==> r@ == "🟡 買い気配"@,
            *self == ScoreBand::Neutral ==> r@ == "⚪️ 様子見（中立）"@,
            *self == ScoreBand::SellHint ==> r@ == "🟠 売り気配"@,
            *self == ScoreBand::SlightlySell ==> r@ == "🟠 やや売り寄り"@,
            *self == ScoreBand::SellLeaning ==> r@ == "🔴 売り傾向あり"@,
            *self == ScoreBand::StrongSell ==> r@ == "🔴 強い売り"@,
    {
        match self {
            ScoreBand::StrongBuy => "🟢 強い買い",
            ScoreBand::BuyDominant => "🟢 買い優勢",
            ScoreBand::BuyLeaning => "🟢 買い傾向あり",
            ScoreBand::SlightlyBuy => "🟡 やや買い寄り",
            ScoreBand::BuyHint => "🟡 買い気配",
            ScoreBand::Neutral => "⚪️ 様子見（中立）",
            ScoreBand::SellHint => "🟠 売り気配",
            ScoreBand::SlightlySell => "🟠 やや売り寄り",
            ScoreBand::SellLeaning => "🔴 売り傾向あり",
            ScoreBand::StrongSell => "🔴 強い売り",
        }
    }
}

/// Buyer's percentage: `round(clamp(W + S, 0, 2W) / 2W * 100)` for total
/// weight `W` and total score `S`; 50 when there is no weight.
pub open spec fn buyer_percent_spec(total_score: int, total_weight: int) -> int {
    if total_weight <= 0 {
        50
    } else {
        let raw = total_weight + total_score;
        let clamped = if raw < 0 {
            0
        } else if raw > 2 * total_weight {
            2 * total_weight
        } else {
            raw
        };
        round_div(100 * clamped, 2 * total_weight)
    }
}

/// The buyer's percentage of a snapshot, from 0 to 100.
pub fn buyer_percent(snap: &FinalScoreSnapshot) -> (r: u8)
    requires
        snap.total_weight >= 0,
    ensures
        r == buyer_percent_spec(snap.total_score as int, snap.total_weight as int),
        r <= 100,
{
    let w = snap.total_weight as i128;
    if w <= 0 {
        return 50;
    }
    let raw = w + snap.total_score as i128;
    let clamped = if raw < 0 {
        0
    } else if raw > 2 * w {
        2 * w
    } else {
        raw
    };
    proof {
        lemma_round_div_at_most(100 * clamped, 2 * w, 100);
    }
    round_div_exec(100 * clamped, 2 * w) as u8
}

/// The seller's percentage: the complement of the buyer's.
pub fn seller_percent(snap: &FinalScoreSnapshot) -> (r: u8)
    requires
        snap.total_weight >= 0,
    ensures
        r == 100 - buyer_percent_spec(snap.total_score as int, snap.total_weight as int),
{
    100 - buyer_percent(snap)
}

/// The holder's signed percentage: the score ratio times 100, rounded; 0
/// when there is no weight.
pub fn holder_percent(snap: &FinalScoreSnapshot) -> (r: i64)
    requires
        snap.score_ratio.den > 0,
        -snap.score_ratio.den <= snap.score_ratio.num <= snap.score_ratio.den,
    ensures
        r == round_div(100 * snap.score_ratio.num, snap.score_ratio.den as int),
        -100 <= r <= 100,
{
    snap.score_ratio.percent()
}

/// How strongly a buyer or seller is advised to act.
#[derive(Clone, Copy, Debug, PartialEq, Eq, Structural)]
pub enum ActionLevel {
    /// 90 and above.
    Strong,
    /// 61 to 89.
    Act,
    /// 40 to 60.
    Neutral,
    /// 20 to 39.
    Discourage,
    /// Below 20.
    Refuse,
}

pub open spec fn action_level_spec(percent: int) -> ActionLevel {
    if percent >= 90 {
        ActionLevel::Strong
    } else if percent >= 61 {
        ActionLevel::Act
    } else if 40 <= percent <= 60 {
        ActionLevel::Neutral
    } else if percent >= 20 {
        ActionLevel::Discourage
    } else {
        ActionLevel::Refuse
    }
}

/// The action band of a stance percentage.
pub fn action_level(percent: u8) -> (r: ActionLevel)
    ensures
        r == action_level_spec(percent as int),
{
    if percent >= 90 {
        ActionLevel::Strong
    } else if percent >= 61 {
        ActionLevel::Act
    } else if 40 <= percent && percent <= 60 {
        ActionLevel::Neutral
    } else if percent >= 20 {
        ActionLevel::Discourage
    } else {
        ActionLevel::Refuse
    }
}

impl ActionLevel {
    pub open spec fn color_spec(self) -> GaugeColor {
        match self {
            ActionLevel::Strong => GaugeColor::Green,
            ActionLevel::Act => GaugeColor::Yellow,
            ActionLevel::Neutral => GaugeColor::White,
            ActionLevel::Discourage => GaugeColor::Orange,
            ActionLevel::Refuse => GaugeColor::Red,
        }
    }

    /// The marker colour of the level, which the gauge fill shares.
    pub fn color(&self) -> (r: GaugeColor)
        ensures
            r == self.color_spec(),
    {
        match self {
            ActionLevel::Strong => GaugeColor::Green,
            ActionLevel::Act => GaugeColor::Yellow,
            ActionLevel::Neutral => GaugeColor::White,
            ActionLevel::Discourage => GaugeColor::Orange,
            ActionLevel::Refuse => GaugeColor::Red,
        }
    }
}

/// The percentage a stance is judged on: the buyer's for a buyer, the
/// seller's for a seller, and the signed ratio percentage for a holder.
pub fn stance_percent(snap: &FinalScoreSnapshot, stance: Stance) -> (r: i64)
    requires
        snap.total_weight >= 0,
        snap.score_ratio.den > 0,
        -snap.score_ratio.den <= snap.score_ratio.num <= snap.score_ratio.den,
    ensures
        stance == Stance::Buyer ==> r == buyer_percent_spec(
            snap.total_score as int,
            snap.total_weight as int,
        ),
        stance == Stance::Seller ==> r == 100 - buyer_percent_spec(
            snap.total_score as int,
            snap.total_weight as int,
        ),
        stance == Stance::Holder ==> r == round_div(
            100 * snap.score_ratio.num,
            snap.score_ratio.den as int,
        ),
{
    match stance {
        Stance::Buyer => buyer_percent(snap) as i64,
        Stance::Seller => seller_percent(snap) as i64,
        Stance::Holder => holder_percent(snap),
    }
}

/// `n` copies of `c`.
pub open spec fn repeat_char(c: char, n: nat) -> Seq<char>
    decreases n,
{
    if n == 0 {
        Seq::empty()
    } else {
        repeat_char(c, (n - 1) as nat).push(c)
    }
}

fn append_repeated(s: &mut String, piece: &str, n: usize)
    requires
        piece@.len() == 1,
    ensures
        final(s)@ == old(s)@ + repeat_char(piece@[0], n as nat),
{
    let mut i: usize = 0;
    while i < n
        invariant
            i <= n,
            piece@.len() == 1,
            s@ == old(s)@ + repeat_char(piece@[0], i as nat),
        decreases n - i,
    {
        let ghost before = s@;
        s.append(piece);
        assert(piece@ =~= seq![piece@[0]]);
        assert(before + repeat_char(piece@[0], i as nat) + piece@ =~= before + repeat_char(
            piece@[0],
            (i + 1) as nat,
        )) by {
            assert(repeat_char(piece@[0], (i + 1) as nat) == repeat_char(piece@[0], i as nat).push(
                piece@[0],
            ));
        }
        i = i + 1;
    }
}

/// Width and fill of the one-sided gauge: at least 10 cells, filled
/// `round(percent * width / 100)` from the right.
pub open spec fn unipolar_width(width: int) -> int {
    if width < 10 {
        10
    } else {
        width
    }
}

pub open spec fn unipolar_filled(percent: int, width: int) -> int {
    (percent * unipolar_width(width) + 50) / 100
}

/// Renders `left [....████] right`, the bar filled from the right in
/// proportion to the percentage.
pub fn render_unipolar_gauge_rtl(percent: u8, left_label: &str, right_label: &str, width: usize) -> (r:
    String)
    requires
        percent <= 100,
        width <= 1_000_000,
    ensures
        r@ == left_label@ + " ["@ + repeat_char(
            '.',
            (unipolar_width(width as int) - unipolar_filled(percent as int, width as int)) as nat,
        ) + repeat_char('█', unipolar_filled(percent as int, width as int) as nat) + "] "@
            + right_label@,
{
    let w: usize = if width < 10 {
        10
    } else {
        width
    };
    assert(percent * w <= 100_000_000) by (nonlinear_arith)
        requires
            percent <= 100,
            w <= 1_000_000,
    ;
    let filled = (percent as usize * w + 50) / 100;
    assert(filled <= w) by (nonlinear_arith)
        requires
            filled == (percent * w + 50) / 100,
            percent <= 100,
            w >= 10,
    ;
    let empty = w - filled;
    proof {
        reveal_strlit(".");
        reveal_strlit("█");
    }
    let mut s = String::from_str(left_label);
    s.append(" [");
    append_repeated(&mut s, ".", empty);
    append_repeated(&mut s, "█", filled);
    s.append("] ");
    s.append(right_label);
    s
}

/// Shape of the two-sided gauge of width `w` (at least 12): a `|` in the
/// middle cell, `blocks` filled cells on the left of it for a positive ratio
/// or on the right for a negative one, and `.` elsewhere.
pub open spec fn bipolar_width(width: int) -> int {
    if width < 12 {
        12
    } else {
        width
    }
}

/// Filled cells: `round(|ratio| * half_width)`, at most the half width.
pub open spec fn bipolar_blocks(num: int, den: int, mid: int) -> int {
    let b = round_div(crate::fixed::abs(num) * mid, den);
    if b > mid {
        mid
    } else {
        b
    }
}

pub open spec fn bipolar_cell(i: int, mid: int, blocks: int, num: int) -> char {
    if i == mid {
        '|'
    } else if num > 0 && mid - blocks <= i < mid {
        '█'
    } else if num < 0 && mid < i <= mid + blocks {
        '█'
    } else {
        '.'
    }
}

/// The cells of the two-sided gauge of a score ratio.
pub fn render_bipolar_gauge_lr(ratio: &ScoreRatio, width: usize) -> (r: Vec<char>)
    requires
        ratio.den > 0,
        width <= 1_000_000,
    ensures
        r@.len() == bipolar_width(width as int),
        forall|i: int|
            0 <= i < r@.len() ==> #[trigger] r@[i] == bipolar_cell(
                i,
                bipolar_width(width as int) / 2,
                bipolar_blocks(
                    ratio.num as int,
                    ratio.den as int,
                    bipolar_width(width as int) / 2,
                ),
                ratio.num as int,
            ),
{
    let w: usize = if width < 12 {
        12
    } else {
        width
    };
    let mid = w / 2;
    let num = ratio.num as i128;
    let mag = if num < 0 {
        -num
    } else {
        num
    };
    assert(mag * mid <= 0x8000_0000_0000_0000 * 1_000_000) by (nonlinear_arith)
        requires
            0 <= mag <= 0x8000_0000_0000_0000,
            0 <= mid <= 1_000_000,
    ;
    let b = round_div_exec(mag * mid as i128, ratio.den as i128);
    let blocks: usize = if b > mid as i128 {
        mid
    } else {
        b as usize
    };
    let mut cells: Vec<char> = Vec::new();
    let mut i: usize = 0;
    while i < w
        invariant
            i <= w,
            w == bipolar_width(width as int),
            mid == w / 2,
            blocks == bipolar_blocks(ratio.num as int, ratio.den as int, mid as int),
            num == ratio.num,
            cells@.len() == i,
            forall|j: int|
                0 <= j < i ==> #[trigger] cells@[j] == bipolar_cell(
                    j,
                    mid as int,
                    blocks as int,
                    ratio.num as int,
                ),
        decreases w - i,
    {
        let c = if i == mid {
            '|'
        } else if num > 0 && mid - blocks <= i && i < mid {
            '█'
        } else if num < 0 && mid < i && i <= mid + blocks {
            '█'
        } else {
            '.'
        };
        cells.push(c);
        i = i + 1;
    }
    cells
}

} // verus!
