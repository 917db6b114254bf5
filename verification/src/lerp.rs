//! Interpolation helpers that stay exact over integers.

use vstd::prelude::*;

use crate::num::half;
use crate::num::halved;

verus! {

/// The midpoint of `a` and `b`: their sum halved, rounded toward zero.
pub fn lerp_half(a: i64, b: i64) -> (r: i64)
    requires
        i64::MIN <= a + b <= i64::MAX,
    ensures
        r == half(a + b),
{
    halved(a + b)
}

} // verus!
