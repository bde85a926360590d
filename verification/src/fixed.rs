//! Fixed-point arithmetic. Every real quantity of the library is stored as a
//! whole number of millionths; products are rounded toward zero and kept
//! inside the range of `i64` by saturation.

use vstd::prelude::*;

verus! {

/// The fixed-point representation of one: a million millionths.
pub const UNIT: i64 = 1_000_000;

/// Nanoseconds in one second.
pub const NANOS_PER_SEC: u64 = 1_000_000_000;

/// `x` limited to the range of `i64`.
pub open spec fn clamp64(x: int) -> int {
    if x < i64::MIN {
        i64::MIN as int
    } else if x > i64::MAX {
        i64::MAX as int
    } else {
        x
    }
}

/// `n / d` rounded toward zero, for a positive divisor.
pub open spec fn quot(n: int, d: int) -> int
    recommends
        d > 0,
{
    if n >= 0 {
        n / d
    } else {
        -((-n) / d)
    }
}

/// `a * b / d`, rounded toward zero and saturated.
pub open spec fn scaled(a: int, b: int, d: int) -> int
    recommends
        d > 0,
{
    clamp64(quot(a * b, d))
}

/// A product with a zero factor is zero, whatever it is divided by.
pub proof fn lemma_scaled_zero(a: int, d: int)
    requires
        d > 0,
    ensures
        scaled(a, 0, d) == 0,
        scaled(0, a, d) == 0,
{
    assert(a * 0 == 0 && 0 * a == 0) by (nonlinear_arith);
    assert(0int / d == 0) by (nonlinear_arith)
        requires
            d > 0,
    ;
}

/// The product of a 64-bit signed factor and a factor of at most 64 bits
/// plus sign stays inside 128 bits.
proof fn lemma_product_fits(a: int, b: int)
    requires
        i64::MIN <= a <= i64::MAX,
        -(u64::MAX as int) <= b <= u64::MAX,
    ensures
        i128::MIN <= a * b <= i128::MAX,
{
    assert(a * b <= 0x8000_0000_0000_0000 * 0xffff_ffff_ffff_ffff) by (nonlinear_arith)
        requires
            -0x8000_0000_0000_0000 <= a <= 0x8000_0000_0000_0000,
            -0xffff_ffff_ffff_ffff <= b <= 0xffff_ffff_ffff_ffff,
    ;
    assert(a * b >= -(0x8000_0000_0000_0000 * 0xffff_ffff_ffff_ffff)) by (nonlinear_arith)
        requires
            -0x8000_0000_0000_0000 <= a <= 0x8000_0000_0000_0000,
            -0xffff_ffff_ffff_ffff <= b <= 0xffff_ffff_ffff_ffff,
    ;
}

/// `x` saturated into an `i64`.
pub fn saturate(x: i128) -> (r: i64)
    ensures
        r == clamp64(x as int),
{
    if x < i64::MIN as i128 {
        i64::MIN
    } else if x > i64::MAX as i128 {
        i64::MAX
    } else {
        x as i64
    }
}

/// `a * b / d` in fixed point: the exact product, divided with rounding
/// toward zero, then saturated.
pub fn mul_div(a: i64, b: i64, d: i64) -> (r: i64)
    requires
        d > 0,
    ensures
        r == scaled(a as int, b as int, d as int),
{
    proof {
        lemma_product_fits(a as int, b as int);
    }
    let product: i128 = (a as i128) * (b as i128);
    saturate(product / (d as i128))
}

/// `a * n / d` for an unsigned factor `n`, as [`mul_div`].
pub fn mul_div_unsigned(a: i64, n: u64, d: u64) -> (r: i64)
    requires
        d > 0,
    ensures
        r == scaled(a as int, n as int, d as int),
{
    proof {
        lemma_product_fits(a as int, n as int);
    }
    let product: i128 = (a as i128) * (n as i128);
    saturate(product / (d as i128))
}

/// `a + b`, saturated.
pub fn add_saturating(a: i64, b: i64) -> (r: i64)
    ensures
        r == clamp64(a + b),
{
    saturate(a as i128 + b as i128)
}

/// `a - b`, saturated.
pub fn sub_saturating(a: i64, b: i64) -> (r: i64)
    ensures
        r == clamp64(a - b),
{
    saturate(a as i128 - b as i128)
}

} // verus!
