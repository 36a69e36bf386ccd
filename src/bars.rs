//! The daily bar series and the window statistics the indicators read from it.
use vstd::prelude::*;
use crate::fixed::VALUE_LIMIT;

verus! {

/// One day's bar; prices are fixed-point (see `fixed::SCALE`).
pub struct Bar {
    pub date: String,
    pub high: u64,
    pub low: u64,
    pub close: u64,
}

impl Bar {
    pub open spec fn wf(&self) -> bool {
        &&& self.low <= self.high
        &&& self.high <= VALUE_LIMIT
        &&& self.close <= VALUE_LIMIT
    }

    pub fn new(date: String, high: u64, low: u64, close: u64) -> (r: Bar)
        ensures
            r.date == date,
            r.high == high,
            r.low == low,
            r.close == close,
    {
        Bar { date, high, low, close }
    }
}

/// Every bar of the series is well formed.
pub open spec fn bars_wf(s: Seq<Bar>) -> bool {
    forall|i: int| 0 <= i < s.len() ==> (#[trigger] s[i]).wf()
}

pub open spec fn max_int(a: int, b: int) -> int {
    if a >= b {
        a
    } else {
        b
    }
}

pub open spec fn min_int(a: int, b: int) -> int {
    if a <= b {
        a
    } else {
        b
    }
}

/// Highest high of the bars `lo .. hi` (a non-empty window).
pub open spec fn max_high(s: Seq<Bar>, lo: int, hi: int) -> int
    decreases hi - lo,
{
    if hi <= lo + 1 {
        s[lo].high as int
    } else {
        max_int(max_high(s, lo, hi - 1), s[hi - 1].high as int)
    }
}

/// Lowest low of the bars `lo .. hi` (a non-empty window).
pub open spec fn min_low(s: Seq<Bar>, lo: int, hi: int) -> int
    decreases hi - lo,
{
    if hi <= lo + 1 {
        s[lo].low as int
    } else {
        min_int(min_low(s, lo, hi - 1), s[hi - 1].low as int)
    }
}

/// Sum of the closes of the bars `lo .. hi`.
pub open spec fn sum_close(s: Seq<Bar>, lo: int, hi: int) -> int
    decreases hi - lo,
{
    if hi <= lo {
        0
    } else {
        sum_close(s, lo, hi - 1) + s[hi - 1].close
    }
}

/// Sum of high + low + close (three times the typical price) over the bars `lo .. hi`.
pub open spec fn sum_typical3(s: Seq<Bar>, lo: int, hi: int) -> int
    decreases hi - lo,
{
    if hi <= lo {
        0
    } else {
        sum_typical3(s, lo, hi - 1) + s[hi - 1].high + s[hi - 1].low + s[hi - 1].close
    }
}

pub proof fn lemma_window_bounds(s: Seq<Bar>, lo: int, hi: int)
    requires
        bars_wf(s),
        0 <= lo < hi <= s.len(),
    ensures
        0 <= min_low(s, lo, hi) <= max_high(s, lo, hi) <= VALUE_LIMIT,
        forall|i: int| lo <= i < hi ==> min_low(s, lo, hi) <= #[trigger] s[i].low,
        forall|i: int| lo <= i < hi ==> max_high(s, lo, hi) >= #[trigger] s[i].high,
    decreases hi - lo,
{
    assert(s[lo].wf());
    if hi > lo + 1 {
        lemma_window_bounds(s, lo, hi - 1);
        assert(s[hi - 1].wf());
    }
}

/// Highest high of `bars[lo .. hi]`.
pub fn window_high(bars: &Vec<Bar>, lo: usize, hi: usize) -> (r: u64)
    requires
        lo < hi <= bars@.len(),
    ensures
        r == max_high(bars@, lo as int, hi as int),
{
    let mut m = bars[lo].high;
    let mut i = lo + 1;
    while i < hi
        invariant
            lo < i <= hi <= bars@.len(),
            m == max_high(bars@, lo as int, i as int),
        decreases hi - i,
    {
        if bars[i].high > m {
            m = bars[i].high;
        }
        i = i + 1;
    }
    m
}

/// Lowest low of `bars[lo .. hi]`.
pub fn window_low(bars: &Vec<Bar>, lo: usize, hi: usize) -> (r: u64)
    requires
        lo < hi <= bars@.len(),
    ensures
        r == min_low(bars@, lo as int, hi as int),
{
    let mut m = bars[lo].low;
    let mut i = lo + 1;
    while i < hi
        invariant
            lo < i <= hi <= bars@.len(),
            m == min_low(bars@, lo as int, i as int),
        decreases hi - i,
    {
        if bars[i].low < m {
            m = bars[i].low;
        }
        i = i + 1;
    }
    m
}

/// Sum of the closes of `bars[lo .. hi]`.
pub fn window_close_sum(bars: &Vec<Bar>, lo: usize, hi: usize) -> (r: i128)
    requires
        lo <= hi <= bars@.len(),
        hi - lo <= 64,
        bars_wf(bars@),
    ensures
        r == sum_close(bars@, lo as int, hi as int),
        0 <= r <= (hi - lo) * VALUE_LIMIT,
{
    let mut sum: i128 = 0;
    let mut i = lo;
    while i < hi
        invariant
            lo <= i <= hi <= bars@.len(),
            hi - lo <= 64,
            bars_wf(bars@),
            sum == sum_close(bars@, lo as int, i as int),
            0 <= sum <= (i - lo) * VALUE_LIMIT,
        decreases hi - i,
    {
        assert(bars@[i as int].wf());
        sum = sum + bars[i].close as i128;
        i = i + 1;
    }
    sum
}

/// Sum of high + low + close over `bars[lo .. hi]`.
pub fn window_typical3_sum(bars: &Vec<Bar>, lo: usize, hi: usize) -> (r: i128)
    requires
        lo <= hi <= bars@.len(),
        hi - lo <= 64,
        bars_wf(bars@),
    ensures
        r == sum_typical3(bars@, lo as int, hi as int),
        0 <= r <= 3 * (hi - lo) * VALUE_LIMIT,
{
    let mut sum: i128 = 0;
    let mut i = lo;
    while i < hi
        invariant
            lo <= i <= hi <= bars@.len(),
            hi - lo <= 64,
            bars_wf(bars@),
            sum == sum_typical3(bars@, lo as int, i as int),
            0 <= sum <= 3 * (i - lo) * VALUE_LIMIT,
        decreases hi - i,
    {
        assert(bars@[i as int].wf());
        let b = &bars[i];
        sum = sum + b.high as i128 + b.low as i128 + b.close as i128;
        i = i + 1;
    }
    sum
}

} // verus!
