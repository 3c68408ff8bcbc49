//! Comparison of numbers up to rounding.

use vstd::prelude::*;
use crate::scalar::{Scalar, EPSILON_RAW};

verus! {

/// Whether `a` and `b` differ by less than the tolerance.
pub open spec fn spec_float_equal(a: Scalar, b: Scalar) -> bool {
    a.spec_sub(b).spec_abs().raw < EPSILON_RAW
}

/// Tells whether `a` and `b` differ by less than the tolerance.
pub fn float_equal(a: Scalar, b: Scalar) -> (r: bool)
    ensures
        r == spec_float_equal(a, b),
{
    a.sub(b).abs().raw < EPSILON_RAW
}

} // verus!
