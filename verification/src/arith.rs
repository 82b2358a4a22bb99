//! Integer helpers shared by the contract models.

use vstd::prelude::*;

verus! {

/// Whether the mathematical integer `x` can be held in an `i128`.
pub open spec fn fits_i128(x: int) -> bool {
    i128::MIN <= x <= i128::MAX
}

/// Quotient of `a` by a positive `b`, rounded toward zero.
///
/// On a non-negative `a` this is the floor of the exact quotient; on a
/// negative `a` it is the ceiling.  It is what `/` computes on machine
/// integers.
pub open spec fn div_toward_zero(a: int, b: int) -> int
    recommends
        b > 0,
{
    if a >= 0 {
        a / b
    } else {
        -((-a) / b)
    }
}

/// The larger of zero and `x`.
pub open spec fn clamp_at_zero(x: int) -> int {
    if x < 0 {
        0
    } else {
        x
    }
}

} // verus!
