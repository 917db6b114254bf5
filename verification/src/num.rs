//! Shared numeric vocabulary: the coordinate range within which products are
//! known to fit in `i64`, truncating division as the `/` operator computes it,
//! and exact two-place minimum and maximum.

use vstd::prelude::*;

verus! {

/// Largest coordinate magnitude for which sums of a few pairwise products
/// still fit in `i64` (2^30; four products of two such values stay below
/// 2^62).
pub const COORD_MAX: i64 = 0x4000_0000;

/// A value small enough to take part in products without overflow.
pub open spec fn fits(x: int) -> bool {
    -COORD_MAX <= x <= COORD_MAX
}

/// Truncating (round-toward-zero) division: exactly what the executable `/`
/// operator computes on signed integers.
pub open spec fn quot(a: int, b: int) -> int {
    if a >= 0 {
        a / b
    } else {
        -((-a) / b)
    }
}

/// Half of `a`, rounded toward zero.
pub open spec fn half(a: int) -> int {
    quot(a, 2)
}

pub open spec fn min2(a: int, b: int) -> int {
    if a <= b {
        a
    } else {
        b
    }
}

pub open spec fn max2(a: int, b: int) -> int {
    if a >= b {
        a
    } else {
        b
    }
}

/// A product is bounded by the product of the factors' bounds.
pub proof fn lemma_mul_bounds(a: int, b: int, ba: int, bb: int)
    requires
        -ba <= a <= ba,
        -bb <= b <= bb,
        0 <= ba,
        0 <= bb,
    ensures
        -(ba * bb) <= a * b <= ba * bb,
{
    assert(-(ba * bb) <= a * b <= ba * bb) by (nonlinear_arith)
        requires
            -ba <= a <= ba,
            -bb <= b <= bb,
            0 <= ba,
            0 <= bb,
    ;
}

pub proof fn lemma_mul_fits(a: int, b: int)
    requires
        fits(a),
        fits(b),
    ensures
        -(COORD_MAX * COORD_MAX) <= a * b <= COORD_MAX * COORD_MAX,
{
    lemma_mul_bounds(a, b, COORD_MAX as int, COORD_MAX as int);
}

/// Truncating division never grows the magnitude.
pub proof fn lemma_quot_abs(a: int, b: int)
    requires
        b != 0,
    ensures
        a >= 0 ==> -a <= quot(a, b) <= a,
        a < 0 ==> a <= quot(a, b) <= -a,
{
    let m = if a >= 0 {
        a
    } else {
        -a
    };
    vstd::arithmetic::div_mod::lemma_fundamental_div_mod(m, b);
    let q = m / b;
    let r = m % b;
    assert(-m <= q <= m) by (nonlinear_arith)
        requires
            m == b * q + r,
            0 <= r,
            r < b || r < -b,
            b != 0,
            m >= 0,
    ;
}

/// Half of a doubly-in-range value is in range.
pub proof fn lemma_half_fits(a: int)
    requires
        -2 * COORD_MAX <= a <= 2 * COORD_MAX,
    ensures
        fits(half(a)),
{
    if a >= 0 {
        vstd::arithmetic::div_mod::lemma_div_pos_is_pos(a, 2);
        vstd::arithmetic::div_mod::lemma_div_is_ordered(a, 2 * COORD_MAX as int, 2);
    } else {
        vstd::arithmetic::div_mod::lemma_div_pos_is_pos(-a, 2);
        vstd::arithmetic::div_mod::lemma_div_is_ordered(-a, 2 * COORD_MAX as int, 2);
    }
}

/// Halving an exact double recovers the value.
pub proof fn lemma_half_double(r: int)
    ensures
        half(2 * r) == r,
{
    if r >= 0 {
        vstd::arithmetic::div_mod::lemma_div_multiples_vanish(r, 2);
    } else {
        vstd::arithmetic::div_mod::lemma_div_multiples_vanish(-r, 2);
        assert(-(2 * r) == 2 * (-r)) by (nonlinear_arith);
    }
}

/// Product of two in-range coordinates, with the exact value and a bound that
/// lets a handful of such products be summed without overflow.
pub fn mul_wide(a: i64, b: i64) -> (r: i64)
    requires
        fits(a as int),
        fits(b as int),
    ensures
        r == a * b,
        -(COORD_MAX * COORD_MAX) <= r <= COORD_MAX * COORD_MAX,
{
    proof {
        lemma_mul_fits(a as int, b as int);
    }
    a * b
}

/// Half of `a`, rounded toward zero, as the `/` operator computes it.
pub fn halved(a: i64) -> (r: i64)
    ensures
        r == half(a as int),
{
    a / 2
}

pub fn imin(a: i64, b: i64) -> (r: i64)
    ensures
        r == min2(a as int, b as int),
{
    if a <= b {
        a
    } else {
        b
    }
}

pub fn imax(a: i64, b: i64) -> (r: i64)
    ensures
        r == max2(a as int, b as int),
{
    if a >= b {
        a
    } else {
        b
    }
}

} // verus!
