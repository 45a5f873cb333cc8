//! Integer facts behind the exact fixed-point comparisons.

use vstd::prelude::*;

verus! {

/// Distance between two integers.
pub open spec fn distance(a: int, b: int) -> int {
    if a >= b {
        a - b
    } else {
        b - a
    }
}

/// Magnitude of an integer.
pub open spec fn magnitude(a: int) -> int {
    if a >= 0 {
        a
    } else {
        -a
    }
}

/// Quotient rounded toward zero, as machine division of signed integers rounds.
pub open spec fn quotient_toward_zero(a: int, b: int) -> int {
    if (a >= 0) == (b > 0) {
        magnitude(a) / magnitude(b)
    } else {
        -(magnitude(a) / magnitude(b))
    }
}

/// A product of bounded non-negative factors is bounded by the product of the bounds.
pub proof fn lemma_product_bound(a: int, b: int, a_max: int, b_max: int)
    requires
        0 <= a <= a_max,
        0 <= b <= b_max,
    ensures
        0 <= a * b <= a_max * b_max,
{
    assert(0 <= a * b <= a_max * b_max) by (nonlinear_arith)
        requires
            0 <= a <= a_max,
            0 <= b <= b_max,
    ;
}

/// For a positive divisor, `a * d <= b` says the same as `a <= b / d`.
pub proof fn lemma_scaled_le_quotient(a: int, b: int, d: int)
    requires
        0 <= a,
        0 <= b,
        0 < d,
    ensures
        (a * d <= b) == (a <= b / d),
{
    let q = b / d;
    assert(b == d * q + b % d && 0 <= b % d < d) by (nonlinear_arith)
        requires
            0 < d,
            q == b / d,
    ;
    if a <= q {
        assert(a * d <= q * d) by (nonlinear_arith)
            requires
                0 <= a <= q,
                0 < d,
        ;
        assert(q * d == d * q) by (nonlinear_arith);
    } else {
        assert(a * d >= (q + 1) * d) by (nonlinear_arith)
            requires
                a >= q + 1,
                0 < d,
        ;
        assert((q + 1) * d == d * q + d) by (nonlinear_arith);
    }
}

/// A total of `count` terms, none above `cap`, has a mean that is not above `cap`.
pub proof fn lemma_mean_bound(total: int, count: int, cap: int)
    requires
        0 < count,
        0 <= total <= count * cap,
    ensures
        0 <= total / count <= cap,
{
    assert(0 <= total / count <= cap) by (nonlinear_arith)
        requires
            0 < count,
            0 <= total <= count * cap,
    ;
}

} // verus!
