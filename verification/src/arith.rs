//! Small nonlinear-arithmetic facts used to bound products and to reason
//! about the strict threshold comparison.

use vstd::prelude::*;

verus! {

/// A product of two non-negative factors stays within the product of their
/// bounds.
pub proof fn lemma_mul_bounds(a: int, b: int, hi_a: int, hi_b: int)
    by (nonlinear_arith)
    requires
        0 <= a <= hi_a,
        0 <= b <= hi_b,
    ensures
        0 <= a * b <= hi_a * hi_b,
{
}

/// A product of two non-negative factors is non-negative.
pub proof fn lemma_mul_nonneg(a: int, b: int)
    by (nonlinear_arith)
    requires
        0 <= a,
        0 <= b,
    ensures
        0 <= a * b,
{
}

/// Scaling by a positive factor keeps the order of two values.
pub proof fn lemma_mul_le_mono(a: int, b: int, f: int)
    by (nonlinear_arith)
    requires
        a <= b,
        0 <= f,
    ensures
        a * f <= b * f,
{
}

} // verus!
