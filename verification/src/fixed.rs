//! Fixed-point arithmetic: a value `v` stands for the number `v / UNIT`.

use vstd::prelude::*;

verus! {

/// The fixed-point representation of one.
pub const UNIT: i64 = 1_000_000;

/// A pair of fixed-point coordinates, on the board or on the screen.
#[derive(Clone, Copy, Debug, PartialEq, Eq, Structural)]
pub struct Point {
    pub x: i64,
    pub y: i64,
}

/// The nearest `i64` to `v`.
pub open spec fn clamp_i64(v: int) -> i64 {
    if v < i64::MIN {
        i64::MIN
    } else if v > i64::MAX {
        i64::MAX
    } else {
        v as i64
    }
}

/// `v` limited to the interval from `lo` to `hi`.
pub open spec fn clamp(v: int, lo: int, hi: int) -> int {
    if v < lo {
        lo
    } else if v > hi {
        hi
    } else {
        v
    }
}

/// The quotient of a division by a positive number is no larger in magnitude
/// than the dividend.
pub proof fn lemma_div_magnitude(a: int, b: int)
    requires
        b > 0,
    ensures
        a >= 0 ==> 0 <= a / b <= a,
        a < 0 ==> a <= a / b < 0,
{
    assert(a >= 0 ==> 0 <= a / b <= a) by (nonlinear_arith)
        requires
            b > 0,
    ;
    assert(a < 0 ==> a <= a / b < 0) by (nonlinear_arith)
        requires
            b > 0,
    ;
}

/// A product is bounded by the product of the bounds of its factors.
pub proof fn lemma_mul_magnitude(a: int, b: int, ba: int, bb: int)
    requires
        -ba <= a <= ba,
        -bb <= b <= bb,
    ensures
        -(ba * bb) <= a * b <= ba * bb,
{
    assert(-(ba * bb) <= a * b <= ba * bb) by (nonlinear_arith)
        requires
            -ba <= a <= ba,
            -bb <= b <= bb,
    ;
}

/// Division is monotonic in the dividend.
pub proof fn lemma_div_monotonic(a: int, b: int, d: int)
    requires
        a <= b,
        d > 0,
    ensures
        a / d <= b / d,
{
    vstd::arithmetic::div_mod::lemma_div_is_ordered(a, b, d);
}

/// A dividend that grows by the divisor or more has a larger quotient.
pub proof fn lemma_div_strict(a: int, b: int, d: int)
    requires
        d > 0,
        b >= a + d,
    ensures
        a / d < b / d,
{
    vstd::arithmetic::div_mod::lemma_fundamental_div_mod(a, d);
    vstd::arithmetic::div_mod::lemma_fundamental_div_mod(b, d);
    let qa = a / d;
    let qb = b / d;
    let ra = a % d;
    let rb = b % d;
    assert(qa < qb) by (nonlinear_arith)
        requires
            a == d * qa + ra,
            b == d * qb + rb,
            0 <= ra < d,
            0 <= rb < d,
            b >= a + d,
            d > 0,
    ;
}

/// Narrows to `i64`, saturating at the ends of its range.
pub fn saturate(v: i128) -> (r: i64)
    ensures
        r == clamp_i64(v as int),
{
    if v < i64::MIN as i128 {
        i64::MIN
    } else if v > i64::MAX as i128 {
        i64::MAX
    } else {
        v as i64
    }
}

/// Division that rounds toward negative infinity.
pub fn floor_div(a: i128, b: i128) -> (q: i128)
    requires
        b > 0,
    ensures
        q == a as int / b as int,
{
    proof {
        lemma_div_magnitude(a as int, b as int);
    }
    match a.checked_div_euclid(b) {
        Some(q) => q,
        None => 0,
    }
}

} // verus!
