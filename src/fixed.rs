//! Fixed-point arithmetic shared by every indicator.
//!
//! Prices and indicator values are integers in units of `1 / SCALE` of a
//! currency unit (or of a percentage point).  Scores are decided on exact
//! fractions; only values meant for display are rounded.
use vstd::prelude::*;

verus! {

/// Number of fixed-point units in one whole unit.
pub const SCALE: i64 = 10_000;

/// Largest magnitude accepted for a price or an externally computed indicator value.
pub const VALUE_LIMIT: i64 = 1_000_000_000_000;

/// Largest magnitude of a numerator or denominator handed to a band decision.
pub const WIDE_LIMIT: i128 = 1_000_000_000_000_000_000_000_000_000_000;

pub open spec fn abs(x: int) -> int {
    if x < 0 {
        -x
    } else {
        x
    }
}

/// `n / d` rounded to the nearest integer, halves away from zero.
pub open spec fn round_div(n: int, d: int) -> int
    recommends
        d > 0,
{
    if n >= 0 {
        (2 * n + d) / (2 * d)
    } else {
        -((2 * (-n) + d) / (2 * d))
    }
}

pub proof fn lemma_round_div_bounded(n: int, d: int)
    requires
        d >= 1,
    ensures
        abs(round_div(n, d)) <= abs(n),
        n >= 0 ==> round_div(n, d) >= 0,
        n <= 0 ==> round_div(n, d) <= 0,
{
    let m = abs(n);
    assert((2 * m + d) / (2 * d) <= m) by (nonlinear_arith)
        requires
            m >= 0,
            d >= 1,
    {
        if m == 0 {
            assert((2 * m + d) / (2 * d) == 0);
        } else {
            assert(2 * m + d <= 2 * d * m + 2 * d - 1);
        }
    }
    assert((2 * m + d) / (2 * d) >= 0) by (nonlinear_arith)
        requires
            m >= 0,
            d >= 1,
    ;
}

/// Rounds the fraction `n / d` to the nearest integer, halves away from zero.
pub fn round_div_exec(n: i128, d: i128) -> (r: i128)
    requires
        d >= 1,
        -WIDE_LIMIT <= n <= WIDE_LIMIT,
        d <= WIDE_LIMIT,
    ensures
        r == round_div(n as int, d as int),
        abs(r as int) <= abs(n as int),
{
    proof {
        lemma_round_div_bounded(n as int, d as int);
    }
    if n >= 0 {
        (2 * n + d) / (2 * d)
    } else {
        -((2 * (-n) + d) / (2 * d))
    }
}

/// Rounds the fraction `n / d` for a denominator of either sign; a zero
/// denominator gives zero.
pub open spec fn round_frac(n: int, d: int) -> int {
    if d > 0 {
        round_div(n, d)
    } else if d < 0 {
        round_div(-n, -d)
    } else {
        0
    }
}

pub fn round_frac_exec(n: i128, d: i128) -> (r: i128)
    requires
        -WIDE_LIMIT <= n <= WIDE_LIMIT,
        -WIDE_LIMIT <= d <= WIDE_LIMIT,
    ensures
        r == round_frac(n as int, d as int),
        abs(r as int) <= abs(n as int),
{
    if d > 0 {
        round_div_exec(n, d)
    } else if d < 0 {
        round_div_exec(-n, -d)
    } else {
        0
    }
}

} // verus!

verus! {

/// A fraction `n / d` that is at most `k` rounds to at most `k`.
pub proof fn lemma_round_div_at_most(n: int, d: int, k: int)
    requires
        d >= 1,
        k >= 0,
        0 <= n <= k * d,
    ensures
        0 <= round_div(n, d) <= k,
{
    assert((2 * n + d) / (2 * d) <= k) by (nonlinear_arith)
        requires
            d >= 1,
            k >= 0,
            0 <= n <= k * d,
    {
        assert(2 * n + d < (k + 1) * (2 * d));
    }
    assert((2 * n + d) / (2 * d) >= 0) by (nonlinear_arith)
        requires
            n >= 0,
            d >= 1,
    ;
}

} // verus!
