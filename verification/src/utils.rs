//! Small numeric helpers.

use crate::fixed::Fx;
use vstd::prelude::*;

verus! {

/// Value of `n` forced into the closed interval `[lo, hi]`.
pub open spec fn fclamp(n: int, lo: int, hi: int) -> int {
    if n < lo {
        lo
    } else if n > hi {
        hi
    } else {
        n
    }
}

/// Clamp a scalar into `[min, max]`. The interval must be non-degenerate.
pub fn clamp(n: Fx, min: Fx, max: Fx) -> (r: Fx)
    requires
        min@ < max@,
    ensures
        r@ == fclamp(n@, min@, max@),
{
    if n.m < min.m {
        return min;
    }
    if n.m > max.m {
        return max;
    }
    n
}

} // verus!
