//! Fixed-point money arithmetic.
//!
//! Amounts of money are whole numbers of sen (one hundredth of a rupiah) and
//! work hours are whole numbers of hundredths of an hour. A quotient that is
//! not a whole number of sen is rounded to the nearest sen, halves upwards.
use vstd::arithmetic::div_mod::{lemma_div_multiples_vanish_quotient, lemma_fundamental_div_mod};
use vstd::prelude::*;

verus! {

/// Largest numerator that `divide_rounded` accepts.
pub const MAX_NUMERATOR: u128 = 0x1_0000_0000_0000_0000_0000_0000_0000;

/// Largest divisor that `divide_rounded` accepts.
pub const MAX_DIVISOR: u128 = 1_000_000;

/// `a / d` rounded to the nearest integer, halves upwards.
pub open spec fn rounded_quotient(a: int, d: int) -> int {
    (2 * a + d) / (2 * d)
}

/// The rounded quotient is non-negative and at most half a unit above `a / d`.
pub proof fn lemma_rounded_quotient_bounds(a: int, d: int)
    requires
        0 <= a,
        0 < d,
    ensures
        0 <= rounded_quotient(a, d),
        2 * d * rounded_quotient(a, d) <= 2 * a + d,
        2 * a + d < 2 * d * (rounded_quotient(a, d) + 1),
        rounded_quotient(a, d) <= a + 1,
        a == 0 ==> rounded_quotient(a, d) == 0,
{
    let n = 2 * a + d;
    let q = n / (2 * d);
    lemma_fundamental_div_mod(n, 2 * d);
    assert(0 <= n % (2 * d) < 2 * d);
    assert(n == (2 * d) * q + n % (2 * d));
    assert(0 <= q) by (nonlinear_arith)
        requires
            n == (2 * d) * q + n % (2 * d),
            n % (2 * d) < 2 * d,
            n > 0,
            d > 0,
    ;
    assert(2 * d * q <= n);
    assert(n < 2 * d * (q + 1)) by (nonlinear_arith)
        requires
            n == (2 * d) * q + n % (2 * d),
            n % (2 * d) < 2 * d,
    ;
    assert(q <= a + 1) by (nonlinear_arith)
        requires
            2 * d * q <= 2 * a + d,
            d > 0,
            a >= 0,
            q >= 0,
    ;
    if a == 0 {
        assert(q == 0) by (nonlinear_arith)
            requires
                2 * d * q <= d,
                d > 0,
                q >= 0,
        ;
    }
}

/// Scaling numerator and divisor by the same factor keeps the rounded quotient.
pub proof fn lemma_rounded_quotient_scale(a: int, d: int, k: int)
    requires
        0 <= a,
        0 < d,
        0 < k,
    ensures
        rounded_quotient(k * a, k * d) == rounded_quotient(a, d),
{
    lemma_div_multiples_vanish_quotient(k, 2 * a + d, 2 * d);
    assert(k * (2 * a + d) == 2 * (k * a) + k * d) by (nonlinear_arith);
    assert(k * (2 * d) == 2 * (k * d)) by (nonlinear_arith);
}

/// `a / d` rounded to the nearest integer, halves upwards.
pub fn divide_rounded(a: u128, d: u128) -> (r: u128)
    requires
        0 < d <= MAX_DIVISOR,
        a <= MAX_NUMERATOR,
    ensures
        r == rounded_quotient(a as int, d as int),
{
    (2 * a + d) / (2 * d)
}

} // verus!
