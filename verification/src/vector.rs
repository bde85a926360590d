//! Three-component vectors in fixed point, and the integer geometry that the
//! camera needs: dot and cross products, integer square roots and
//! normalisation.

use vstd::prelude::*;
use crate::fixed::{quot, UNIT};

verus! {

/// A vector whose components are whole numbers of millionths.
#[derive(Clone, Copy, Debug, PartialEq, Eq, Structural)]
pub struct Vec3 {
    /// The first component.
    pub x: i64,
    /// The second component, which is the one along up.
    pub y: i64,
    /// The third component.
    pub z: i64,
}

/// The mathematical value of a vector: three unbounded integers.
pub struct Vec3View {
    pub x: int,
    pub y: int,
    pub z: int,
}

impl View for Vec3 {
    type V = Vec3View;

    open spec fn view(&self) -> Vec3View {
        Vec3View { x: self.x as int, y: self.y as int, z: self.z as int }
    }
}

/// How far the length of a vector may lie from [`UNIT`] for the vector to
/// count as a unit vector.
pub const UNIT_SLACK: i64 = 10;

impl Vec3View {
    /// The zero vector.
    pub open spec fn zero() -> Vec3View {
        Vec3View { x: 0, y: 0, z: 0 }
    }

    /// The exact dot product.
    pub open spec fn dot(self, rhs: Vec3View) -> int {
        self.x * rhs.x + self.y * rhs.y + self.z * rhs.z
    }

    /// The exact cross product.
    pub open spec fn cross(self, rhs: Vec3View) -> Vec3View {
        Vec3View {
            x: self.y * rhs.z - self.z * rhs.y,
            y: self.z * rhs.x - self.x * rhs.z,
            z: self.x * rhs.y - self.y * rhs.x,
        }
    }

    /// The length, rounded down to a whole number.
    pub open spec fn length(self) -> int {
        isqrt(self.dot(self))
    }

    /// The vector of length [`UNIT`] in the direction of `self`, each
    /// component rounded toward zero. The zero vector has no direction and
    /// stays zero.
    pub open spec fn normalized(self) -> Vec3View {
        let len = self.length();
        if len == 0 {
            Vec3View::zero()
        } else {
            Vec3View {
                x: quot(self.x * UNIT, len),
                y: quot(self.y * UNIT, len),
                z: quot(self.z * UNIT, len),
            }
        }
    }

    /// Whether every component lies between `-limit` and `limit`.
    pub open spec fn within(self, limit: int) -> bool {
        &&& -limit <= self.x <= limit
        &&& -limit <= self.y <= limit
        &&& -limit <= self.z <= limit
    }

    /// Whether the length is within [`UNIT_SLACK`] of [`UNIT`].
    pub open spec fn is_unit(self) -> bool {
        (UNIT - UNIT_SLACK) * (UNIT - UNIT_SLACK) <= self.dot(self) <= (UNIT + UNIT_SLACK) * (UNIT
            + UNIT_SLACK)
    }
}

/// The largest component magnitude of a vector that passes
/// [`Vec3View::is_unit`].
pub const UNIT_REACH: i64 = UNIT + UNIT_SLACK;

/// The largest component magnitude for which a cross product cannot leave
/// the range of `i64`.
pub const CROSS_LIMIT: i64 = 0x7fff_ffff;

/// The largest component magnitude for which normalising cannot leave the
/// range of `i64`.
pub const NORMALIZE_LIMIT: i64 = 9_000_000_000_000;

/// A number of larger magnitude has a larger square.
proof fn lemma_square_grows(a: int, b: int)
    by (nonlinear_arith)
    requires
        b >= 0,
        a > b || a < -b,
    ensures
        a * a > b * b,
{
}

/// A square is never negative.
proof fn lemma_square_nonnegative(a: int)
    by (nonlinear_arith)
    ensures
        a * a >= 0,
{
}

/// No component of a unit vector exceeds the length that the vector may have.
pub proof fn lemma_unit_within(v: Vec3View)
    requires
        v.is_unit(),
    ensures
        v.within(UNIT_REACH as int),
{
    let reach = UNIT_REACH as int;
    lemma_square_nonnegative(v.x);
    lemma_square_nonnegative(v.y);
    lemma_square_nonnegative(v.z);
    if v.x > reach || v.x < -reach {
        lemma_square_grows(v.x, reach);
    }
    if v.y > reach || v.y < -reach {
        lemma_square_grows(v.y, reach);
    }
    if v.z > reach || v.z < -reach {
        lemma_square_grows(v.z, reach);
    }
}

impl Vec3 {
    /// The vector with the given components.
    pub fn new(x: i64, y: i64, z: i64) -> (v: Vec3)
        ensures
            v == (Vec3 { x, y, z }),
    {
        Vec3 { x, y, z }
    }

    /// The squared length.
    pub fn length_squared(&self) -> (n: u128)
        ensures
            n == self@.dot(self@),
    {
        let xx: u128 = square(self.x);
        let yy: u128 = square(self.y);
        let zz: u128 = square(self.z);
        xx + yy + zz
    }

    /// Whether the length is within [`UNIT_SLACK`] of [`UNIT`].
    pub fn is_unit(&self) -> (b: bool)
        ensures
            b == self@.is_unit(),
    {
        let n: u128 = self.length_squared();
        let low: u128 = ((UNIT - UNIT_SLACK) as u128) * ((UNIT - UNIT_SLACK) as u128);
        let high: u128 = ((UNIT + UNIT_SLACK) as u128) * ((UNIT + UNIT_SLACK) as u128);
        low <= n && n <= high
    }

    /// The exact cross product.
    pub(crate) fn cross(&self, rhs: &Vec3) -> (r: Vec3)
        requires
            self@.within(CROSS_LIMIT as int),
            rhs@.within(CROSS_LIMIT as int),
        ensures
            r@ == self@.cross(rhs@),
    {
        Vec3 {
            x: minor(self.y, rhs.z, self.z, rhs.y),
            y: minor(self.z, rhs.x, self.x, rhs.z),
            z: minor(self.x, rhs.y, self.y, rhs.x),
        }
    }

    /// The vector of length [`UNIT`] in the direction of `self`, each
    /// component rounded toward zero; zero for the zero vector.
    pub(crate) fn normalized(&self) -> (r: Vec3)
        requires
            self@.within(NORMALIZE_LIMIT as int),
        ensures
            r@ == self@.normalized(),
    {
        let len: u64 = integer_sqrt(self.length_squared());
        if len == 0 {
            Vec3 { x: 0, y: 0, z: 0 }
        } else {
            Vec3 {
                x: rescale(self.x, len),
                y: rescale(self.y, len),
                z: rescale(self.z, len),
            }
        }
    }
}

/// `a * a`.
fn square(a: i64) -> (r: u128)
    ensures
        r == a * a,
        r <= 0x4000_0000_0000_0000_0000_0000_0000_0000,
{
    assert(0 <= a * a <= 0x8000_0000_0000_0000 * 0x8000_0000_0000_0000) by (nonlinear_arith)
        requires
            -0x8000_0000_0000_0000 <= a <= 0x8000_0000_0000_0000,
    ;
    let wide: i128 = a as i128;
    (wide * wide) as u128
}

/// `a * b - c * d`.
fn minor(a: i64, b: i64, c: i64, d: i64) -> (r: i64)
    requires
        -CROSS_LIMIT <= a <= CROSS_LIMIT,
        -CROSS_LIMIT <= b <= CROSS_LIMIT,
        -CROSS_LIMIT <= c <= CROSS_LIMIT,
        -CROSS_LIMIT <= d <= CROSS_LIMIT,
    ensures
        r == a * b - c * d,
{
    assert(forall|p: int, q: int|
        -0x7fff_ffff <= p <= 0x7fff_ffff && -0x7fff_ffff <= q <= 0x7fff_ffff ==> -0x3fff_ffff_0000_0001
            <= #[trigger] (p * q) <= 0x3fff_ffff_0000_0001) by (nonlinear_arith);
    assert(-0x3fff_ffff_0000_0001 <= a * b <= 0x3fff_ffff_0000_0001);
    assert(-0x3fff_ffff_0000_0001 <= c * d <= 0x3fff_ffff_0000_0001);
    a * b - c * d
}

/// `a * UNIT / len`, rounded toward zero.
fn rescale(a: i64, len: u64) -> (r: i64)
    requires
        -NORMALIZE_LIMIT <= a <= NORMALIZE_LIMIT,
        len > 0,
    ensures
        r == quot(a * UNIT, len as int),
{
    let num: i128 = (a as i128) * (UNIT as i128);
    let q: i128 = num / (len as i128);
    assert(-(num as int) <= q <= num || num <= q <= -(num as int)) by (nonlinear_arith)
        requires
            q == quot(num as int, len as int),
            len > 0,
    ;
    q as i64
}

/// Whether `r` is the square root of `n`, rounded down.
pub open spec fn is_root(n: int, r: int) -> bool {
    0 <= r && r * r <= n < (r + 1) * (r + 1)
}

/// The square root of `n`, rounded down.
pub open spec fn isqrt(n: int) -> int {
    choose|r: int| is_root(n, r)
}

/// A number has at most one rounded-down square root, so any `r` that
/// passes [`is_root`] is [`isqrt`].
pub proof fn lemma_isqrt_unique(n: int, r: int)
    requires
        is_root(n, r),
    ensures
        isqrt(n) == r,
{
    let s = isqrt(n);
    assert(is_root(n, s));
    if s < r {
        assert((s + 1) * (s + 1) <= r * r) by (nonlinear_arith)
            requires
                0 <= s,
                s + 1 <= r,
        ;
    } else if r < s {
        assert((r + 1) * (r + 1) <= s * s) by (nonlinear_arith)
            requires
                0 <= r,
                r + 1 <= s,
        ;
    }
}

/// The square root of `n`, rounded down.
pub fn integer_sqrt(n: u128) -> (r: u64)
    ensures
        is_root(n as int, r as int),
        r == isqrt(n as int),
{
    let mut lo: u128 = 0;
    let mut hi: u128 = 0x1_0000_0000_0000_0000;
    assert(n < hi * hi) by (nonlinear_arith)
        requires
            n <= u128::MAX,
            hi == 0x1_0000_0000_0000_0000,
    ;
    while hi - lo > 1
        invariant
            lo < hi <= 0x1_0000_0000_0000_0000,
            lo * lo <= n < hi * hi,
        decreases hi - lo,
    {
        let mid: u128 = lo + (hi - lo) / 2;
        assert(mid * mid <= 0xffff_ffff_ffff_ffff * 0xffff_ffff_ffff_ffff) by (nonlinear_arith)
            requires
                0 <= mid <= 0xffff_ffff_ffff_ffff,
        ;
        if mid * mid <= n {
            lo = mid;
        } else {
            hi = mid;
        }
    }
    proof {
        lemma_isqrt_unique(n as int, lo as int);
    }
    lo as u64
}

} // verus!
