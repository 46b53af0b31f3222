//! Per-billion ratios, computed by `sp_arithmetic::Perbill`.
//!
//! A ratio is held as its number of parts per billion, a plain `u32` in
//! `0..=PERBILL_ONE`.
use vstd::prelude::*;
use sp_arithmetic::Perbill;

verus! {

/// The number of parts in a whole (100%).
pub const PERBILL_ONE: u32 = 1_000_000_000;

/// The parts of `p / q`, rounded down; a whole when `q` is zero or `p` exceeds `q`.
pub open spec fn rational_parts(p: u64, q: u64) -> u32 {
    if q == 0 || p > q {
        PERBILL_ONE
    } else {
        ((PERBILL_ONE as int) * (p as int) / (q as int)) as u32
    }
}

/// `x` scaled by `parts` per billion, rounded to the nearest integer, ties down.
pub open spec fn scaled(parts: u32, x: u64) -> int {
    let n = (x as int) * (parts as int);
    let q = n / (PERBILL_ONE as int);
    if n % (PERBILL_ONE as int) > (PERBILL_ONE as int) / 2 {
        q + 1
    } else {
        q
    }
}

/// Calls `Perbill::from_rational(p, q)` and returns its parts (`Perbill::deconstruct`).
/// The crate rounds down (`Rounding::Down`) and answers a whole (`Perbill::one`)
/// where `q` is zero or `p > q`: the contract states exactly that.
#[verifier::external_body]
pub(crate) fn perbill_from_rational(p: u64, q: u64) -> (parts: u32)
    ensures
        parts == rational_parts(p, q),
{
    Perbill::from_rational(p, q).deconstruct()
}

/// Calls `Perbill::from_parts(parts) * x` (`ops::Mul<N> for Perbill`).
/// The crate multiplies without overflow and rounds to the nearest integer,
/// ties down (`Rounding::NearestPrefDown`): the contract states that result.
#[verifier::external_body]
pub(crate) fn perbill_mul(parts: u32, x: u64) -> (r: u64)
    requires
        parts <= PERBILL_ONE,
    ensures
        r == scaled(parts, x),
{
    Perbill::from_parts(parts) * x
}

/// The parts of a ratio never exceed a whole.
pub proof fn lemma_rational_parts_bounded(p: u64, q: u64)
    ensures
        rational_parts(p, q) <= PERBILL_ONE,
        q != 0 && p <= q ==> rational_parts(p, q) == (PERBILL_ONE as int) * (p as int) / (q as int),
{
    if q != 0 && p <= q {
        let d = PERBILL_ONE as int;
        assert(d * (p as int) / (q as int) <= d) by (nonlinear_arith)
            requires p <= q, q > 0, d > 0, p >= 0;
        assert(d * (p as int) / (q as int) >= 0) by (nonlinear_arith)
            requires q > 0, d > 0, p >= 0;
    }
}

/// A ratio of at most a whole never scales a value up.
pub proof fn lemma_scaled_bounded(parts: u32, x: u64)
    requires
        parts <= PERBILL_ONE,
    ensures
        0 <= scaled(parts, x) <= x,
{
    let d = PERBILL_ONE as int;
    let n = (x as int) * (parts as int);
    assert(0 <= n <= x * d) by (nonlinear_arith)
        requires n == x * parts, parts <= d, x >= 0, parts >= 0;
    assert(n / d <= x) by (nonlinear_arith)
        requires n <= x * d, d > 0, n >= 0;
    assert(n / d >= 0) by (nonlinear_arith)
        requires n >= 0, d > 0;
    if n % d > d / 2 {
        // n / d < x, else n == x * d and n % d == 0.
        assert(n / d < x) by (nonlinear_arith)
            requires n <= x * d, d > 0, n >= 0, n % d > 0;
    }
}

} // verus!
