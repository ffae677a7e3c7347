//! Fixed-point arithmetic on counts of millionths.

use vstd::prelude::*;

verus! {

/// The fixed-point count that stands for one whole: a value `v` stands for
/// the number `v / SCALE`.
pub const SCALE: i64 = 1_000_000;

/// The quotient `a / b`, rounded toward zero.
pub open spec fn trunc_div(a: int, b: int) -> int
    recommends
        b > 0,
{
    if a >= 0 {
        a / b
    } else {
        -((-a) / b)
    }
}

/// The fixed-point product of two fixed-point numbers, rounded toward zero.
pub open spec fn mul_fixed(a: int, b: int) -> int {
    trunc_div(a * b, SCALE as int)
}

/// The fixed-point quotient of two fixed-point numbers, rounded toward zero.
pub open spec fn div_fixed(a: int, b: int) -> int
    recommends
        b > 0,
{
    trunc_div(a * SCALE, b)
}

/// `x` limited to the range from `lo` to `hi`.
pub open spec fn clamp(x: int, lo: int, hi: int) -> int
    recommends
        lo <= hi,
{
    if x < lo {
        lo
    } else if x > hi {
        hi
    } else {
        x
    }
}

/// The distance of `x` from zero.
pub open spec fn magnitude(x: int) -> int {
    if x < 0 {
        -x
    } else {
        x
    }
}

/// The fixed-point product of two 64-bit numbers stays below 2 to the 110th.
pub proof fn product_bound(a: int, b: int)
    requires
        -0x8000_0000_0000_0000 <= a <= 0x8000_0000_0000_0000,
        -0x8000_0000_0000_0000 <= b <= 0x8000_0000_0000_0000,
    ensures
        -0x4000_0000_0000_0000_0000_0000_0000 <= mul_fixed(a, b)
            <= 0x4000_0000_0000_0000_0000_0000_0000,
{
    let x = a * b;
    assert(-0x4000_0000_0000_0000_0000_0000_0000_0000 <= x
        <= 0x4000_0000_0000_0000_0000_0000_0000_0000) by (nonlinear_arith)
        requires
            x == a * b,
            -0x8000_0000_0000_0000 <= a <= 0x8000_0000_0000_0000,
            -0x8000_0000_0000_0000 <= b <= 0x8000_0000_0000_0000,
    ;
    if x >= 0 {
        assert(0 <= x / 1_000_000 <= 0x4000_0000_0000_0000_0000_0000_0000) by (nonlinear_arith)
            requires
                0 <= x <= 0x4000_0000_0000_0000_0000_0000_0000_0000,
        ;
    } else {
        assert(0 <= (-x) / 1_000_000 <= 0x4000_0000_0000_0000_0000_0000_0000)
            by (nonlinear_arith)
            requires
                0 <= -x <= 0x4000_0000_0000_0000_0000_0000_0000_0000,
        ;
    }
}

/// Divides `a` by a positive `b`, rounding toward zero.
pub fn quotient(a: i128, b: i128) -> (q: i128)
    requires
        b > 0,
        a > i128::MIN,
    ensures
        q == trunc_div(a as int, b as int),
{
    if a >= 0 {
        a / b
    } else {
        let n: i128 = -a;
        let p: i128 = n / b;
        assert(0 <= p <= n) by (nonlinear_arith)
            requires
                p == n / b,
                n >= 0,
                b > 0,
        ;
        -p
    }
}

/// The fixed-point product of `a` and `b`.
pub fn product(a: i64, b: i64) -> (p: i128)
    ensures
        p == mul_fixed(a as int, b as int),
        -0x4000_0000_0000_0000_0000_0000_0000 <= p <= 0x4000_0000_0000_0000_0000_0000_0000,
{
    proof {
        product_bound(a as int, b as int);
    }
    assert(-0x4000_0000_0000_0000_0000_0000_0000_0000 <= a * b
        <= 0x4000_0000_0000_0000_0000_0000_0000_0000) by (nonlinear_arith)
        requires
            -0x8000_0000_0000_0000 <= a <= 0x8000_0000_0000_0000,
            -0x8000_0000_0000_0000 <= b <= 0x8000_0000_0000_0000,
    ;
    let wide: i128 = (a as i128) * (b as i128);
    quotient(wide, SCALE as i128)
}

/// Limits `x` to the range of `i64`.
pub fn narrow(x: i128) -> (r: i64)
    ensures
        r == clamp(x as int, i64::MIN as int, i64::MAX as int),
{
    if x < i64::MIN as i128 {
        i64::MIN
    } else if x > i64::MAX as i128 {
        i64::MAX
    } else {
        x as i64
    }
}

} // verus!
