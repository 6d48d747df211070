//! Small arithmetic lemmas shared by the easing and blend modules.

use vstd::arithmetic::div_mod::{lemma_div_is_ordered, lemma_div_multiples_vanish, lemma_div_of0};
use vstd::arithmetic::mul::{lemma_mul_inequality, lemma_mul_is_commutative, lemma_mul_nonnegative};
use vstd::prelude::*;

verus! {

/// Squaring is monotone on non-negative integers.
pub(crate) proof fn lemma_sq_le(a: int, b: int)
    requires
        0 <= a <= b,
    ensures
        0 <= a * a <= b * b,
{
    lemma_mul_nonnegative(a, a);
    lemma_mul_inequality(a, b, a);
    lemma_mul_inequality(a, b, b);
    assert(a * b == b * a) by {
        lemma_mul_is_commutative(a, b);
    }
}

/// A non-negative numerator at most `bound * d` divides by `d` to at most
/// `bound`.
pub(crate) proof fn lemma_div_le_bound(num: int, bound: int, d: int)
    requires
        0 <= num,
        0 <= bound,
        0 < d,
        num <= bound * d,
    ensures
        0 <= num / d <= bound,
{
    lemma_div_is_ordered(num, bound * d, d);
    lemma_mul_is_commutative(bound, d);
    lemma_div_multiples_vanish(bound, d);
    lemma_div_is_ordered(0, num, d);
    lemma_div_of0(d);
}

/// Cubing is monotone on non-negative integers.
pub(crate) proof fn lemma_cube_le(a: int, b: int)
    by (nonlinear_arith)
    requires
        0 <= a <= b,
    ensures
        0 <= a * a * a <= b * b * b,
{
}

/// A product of non-negative factors grows with either factor, and commutes.
pub(crate) proof fn lemma_mul_le(a: int, amax: int, b: int)
    requires
        0 <= a <= amax,
        0 <= b,
    ensures
        0 <= a * b <= amax * b,
        a * b == b * a,
{
    lemma_mul_nonnegative(a, b);
    lemma_mul_inequality(a, amax, b);
    lemma_mul_is_commutative(a, b);
}

/// A product of values in `[0, s]` summing the factor pair to `s` is at most
/// `s * s / 4`; stated multiplication-only as `4 * x * (s - x) <= s * s`.
pub(crate) proof fn lemma_balanced_product_bound(x: int, s: int)
    by (nonlinear_arith)
    requires
        0 <= x <= s,
    ensures
        0 <= x * (s - x),
        4 * (x * (s - x)) <= s * s,
{
}

} // verus!
