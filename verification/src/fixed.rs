//! Fixed-point quantities shared by the whole crate.
//!
//! Lengths and speeds are whole thousandths of a world unit (per second, for
//! speeds); durations are whole microseconds. Every operation here is total:
//! results that leave the `i32` range saturate.

use vstd::prelude::*;

verus! {

/// Thousandths per world unit: the length 1.0 is stored as 1000.
pub const UNIT: i32 = 1000;

/// The sum of the durations `dts`.
pub open spec fn total_time(dts: Seq<u64>) -> nat
    decreases dts.len(),
{
    if dts.len() == 0 {
        0
    } else {
        total_time(dts.drop_last()) + dts.last() as nat
    }
}

/// The nearest `i32` to `v`.
pub open spec fn clamp_i32(v: int) -> int {
    if v < i32::MIN {
        i32::MIN as int
    } else if v > i32::MAX {
        i32::MAX as int
    } else {
        v
    }
}

/// The quotient `a / b` rounded toward zero, for a positive divisor.
pub open spec fn div_toward_zero(a: int, b: int) -> int
    recommends
        b > 0,
{
    if a >= 0 {
        a / b
    } else {
        -((-a) / b)
    }
}

/// `r` is the integer part of the square root of `n`.
pub open spec fn is_floor_sqrt(n: nat, r: nat) -> bool {
    r * r <= n < (r + 1) * (r + 1)
}

/// The integer part of the square root of `n`.
pub open spec fn floor_sqrt(n: nat) -> nat {
    choose|r: nat| is_floor_sqrt(n, r)
}

/// Squares grow with the magnitude of their argument.
pub proof fn lemma_square_bound(a: int, bound: int)
    by (nonlinear_arith)
    requires
        -bound <= a <= bound,
    ensures
        0 <= a * a <= bound * bound,
{
}

/// Squaring preserves the order of natural numbers.
pub proof fn lemma_square_monotonic(a: nat, b: nat)
    by (nonlinear_arith)
    requires
        a <= b,
    ensures
        a * a <= b * b,
{
}

/// At most one number is the integer square root of `n`.
pub proof fn lemma_floor_sqrt_unique(n: nat, r1: nat, r2: nat)
    requires
        is_floor_sqrt(n, r1),
        is_floor_sqrt(n, r2),
    ensures
        r1 == r2,
{
    if r1 < r2 {
        lemma_square_monotonic(r1 + 1, r2);
    } else if r2 < r1 {
        lemma_square_monotonic(r2 + 1, r1);
    }
}

/// Every natural number has an integer square root, and `floor_sqrt` names it.
pub proof fn lemma_floor_sqrt_exists(n: nat)
    ensures
        is_floor_sqrt(n, floor_sqrt(n)),
    decreases n,
{
    if n == 0 {
        assert(is_floor_sqrt(0, 0)) by (nonlinear_arith);
    } else {
        lemma_floor_sqrt_exists((n - 1) as nat);
        let r = floor_sqrt((n - 1) as nat);
        if n < (r + 1) * (r + 1) {
            assert(is_floor_sqrt(n, r));
        } else {
            assert((r + 2) * (r + 2) == (r + 1) * (r + 1) + 2 * r + 3) by (nonlinear_arith);
            assert(is_floor_sqrt(n, r + 1));
        }
    }
}

/// Whoever satisfies the defining inequalities is `floor_sqrt(n)`.
pub proof fn lemma_floor_sqrt_is(n: nat, r: nat)
    requires
        is_floor_sqrt(n, r),
    ensures
        floor_sqrt(n) == r,
{
    lemma_floor_sqrt_exists(n);
    lemma_floor_sqrt_unique(n, r, floor_sqrt(n));
}

/// The integer square root of a square is its root.
pub proof fn lemma_floor_sqrt_of_square(r: nat)
    ensures
        floor_sqrt(r * r) == r,
{
    assert(r * r < (r + 1) * (r + 1)) by (nonlinear_arith);
    lemma_floor_sqrt_is(r * r, r);
}

/// A multiple of the divisor divides without rounding.
pub proof fn lemma_div_toward_zero_of_multiple(q: int, d: int)
    by (nonlinear_arith)
    requires
        d > 0,
    ensures
        div_toward_zero(q * d, d) == q,
{
}

/// The integer part of the square root of `n`, by bisection.
pub fn integer_sqrt(n: u128) -> (r: u64)
    ensures
        r == floor_sqrt(n as nat),
        r * r <= n < (r + 1) * (r + 1),
{
    let mut lo: u128 = 0;
    let mut hi: u128 = 0x1_0000_0000_0000_0000;
    while hi - lo > 1
        invariant
            lo < hi <= 0x1_0000_0000_0000_0000,
            lo * lo <= n < hi * hi,
        decreases hi - lo,
    {
        let mid: u128 = lo + (hi - lo) / 2;
        assert(mid * mid <= 0xFFFF_FFFF_FFFF_FFFF * 0xFFFF_FFFF_FFFF_FFFF) by {
            lemma_square_bound(mid as int, 0xFFFF_FFFF_FFFF_FFFF);
        }
        if mid * mid <= n {
            lo = mid;
        } else {
            hi = mid;
        }
    }
    proof {
        lemma_floor_sqrt_is(n as nat, lo as nat);
    }
    lo as u64
}

/// The nearest `i32` to `v`.
pub fn saturate(v: i128) -> (r: i32)
    ensures
        r == clamp_i32(v as int),
{
    if v < i32::MIN as i128 {
        i32::MIN
    } else if v > i32::MAX as i128 {
        i32::MAX
    } else {
        v as i32
    }
}

/// A point or direction in world space, each coordinate in thousandths of a unit.
#[derive(Clone, Copy, Debug, PartialEq, Eq, Structural)]
pub struct Vec3 {
    pub x: i32,
    pub y: i32,
    pub z: i32,
}

/// The sum of the squares of three integers.
pub open spec fn sum_of_squares(x: int, y: int, z: int) -> nat {
    (x * x + y * y + z * z) as nat
}

/// The Euclidean length of `(x, y, z)`, rounded down.
pub open spec fn length_of(x: int, y: int, z: int) -> nat {
    floor_sqrt(sum_of_squares(x, y, z))
}

/// One coordinate `c` of a vector of length `len`, after the vector is
/// stretched to length `target`: `c * target / len` rounded toward zero and
/// saturated. A vector of length zero stays zero.
pub open spec fn rescaled_coordinate(c: int, len: nat, target: int) -> int {
    if len == 0 {
        0
    } else {
        clamp_i32(div_toward_zero(c * target, len as int))
    }
}

/// The vector `(x, y, z)` stretched to length `target`.
pub open spec fn rescaled(x: int, y: int, z: int, target: int) -> Vec3 {
    let len = length_of(x, y, z);
    Vec3 {
        x: rescaled_coordinate(x, len, target) as i32,
        y: rescaled_coordinate(y, len, target) as i32,
        z: rescaled_coordinate(z, len, target) as i32,
    }
}

/// The vector `(x, y, z)` stretched to length `target`, coordinate by
/// coordinate as `rescaled_coordinate` says.
pub fn rescale(x: i64, y: i64, z: i64, target: i32) -> (v: Vec3)
    ensures
        v == rescaled(x as int, y as int, z as int, target as int),
{
    proof {
        lemma_square_bound(x as int, 0x8000_0000_0000_0000);
        lemma_square_bound(y as int, 0x8000_0000_0000_0000);
        lemma_square_bound(z as int, 0x8000_0000_0000_0000);
    }
    let xx: u128 = (x as i128 * x as i128) as u128;
    let yy: u128 = (y as i128 * y as i128) as u128;
    let zz: u128 = (z as i128 * z as i128) as u128;
    let len: u64 = integer_sqrt(xx + yy + zz);
    if len == 0 {
        return Vec3 { x: 0, y: 0, z: 0 };
    }
    let t: i128 = target as i128;
    let d: i128 = len as i128;
    proof {
        lemma_product_bound(x as int, t as int);
        lemma_product_bound(y as int, t as int);
        lemma_product_bound(z as int, t as int);
    }
    Vec3 {
        x: saturate((x as i128 * t) / d),
        y: saturate((y as i128 * t) / d),
        z: saturate((z as i128 * t) / d),
    }
}

/// The product of a 64-bit and a 32-bit signed value fits in 96 bits.
pub proof fn lemma_product_bound(a: int, b: int)
    by (nonlinear_arith)
    requires
        -0x8000_0000_0000_0000 <= a <= 0x8000_0000_0000_0000,
        -0x8000_0000 <= b <= 0x8000_0000,
    ensures
        -0x4000_0000_0000_0000_0000_0000 <= a * b <= 0x4000_0000_0000_0000_0000_0000,
{
}

impl Vec3 {
    /// The square of the distance between two points.
    pub open spec fn distance_squared(self, other: Vec3) -> nat {
        sum_of_squares(self.x - other.x, self.y - other.y, self.z - other.z)
    }

    /// The square of the distance between two points projected on the ground
    /// plane (the vertical coordinate `y` is ignored).
    pub open spec fn planar_distance_squared(self, other: Vec3) -> nat {
        sum_of_squares(self.x - other.x, 0, self.z - other.z)
    }

    /// The opposite vector, saturated.
    pub open spec fn opposite(self) -> Vec3 {
        Vec3 {
            x: clamp_i32(-self.x) as i32,
            y: clamp_i32(-self.y) as i32,
            z: clamp_i32(-self.z) as i32,
        }
    }

    pub fn new(x: i32, y: i32, z: i32) -> (v: Vec3)
        ensures
            v == (Vec3 { x, y, z }),
    {
        Vec3 { x, y, z }
    }

    pub fn zero() -> (v: Vec3)
        ensures
            v == (Vec3 { x: 0, y: 0, z: 0 }),
    {
        Vec3 { x: 0, y: 0, z: 0 }
    }

    /// Whether `other` lies strictly closer than `radius`.
    pub fn within(&self, other: &Vec3, radius: u32) -> (near: bool)
        ensures
            near == (self.distance_squared(*other) < radius * radius),
    {
        let dx: i128 = self.x as i128 - other.x as i128;
        let dy: i128 = self.y as i128 - other.y as i128;
        let dz: i128 = self.z as i128 - other.z as i128;
        let r: i128 = radius as i128;
        proof {
            lemma_square_bound(dx as int, 0x1_0000_0000);
            lemma_square_bound(dy as int, 0x1_0000_0000);
            lemma_square_bound(dz as int, 0x1_0000_0000);
            lemma_square_bound(r as int, 0x1_0000_0000);
        }
        dx * dx + dy * dy + dz * dz < r * r
    }

    /// Whether `other` lies strictly closer than `radius` when both points are
    /// projected on the ground plane.
    pub fn planar_within(&self, other: &Vec3, radius: u32) -> (near: bool)
        ensures
            near == (self.planar_distance_squared(*other) < radius * radius),
    {
        let dx: i128 = self.x as i128 - other.x as i128;
        let dz: i128 = self.z as i128 - other.z as i128;
        let r: i128 = radius as i128;
        proof {
            lemma_square_bound(dx as int, 0x1_0000_0000);
            lemma_square_bound(dz as int, 0x1_0000_0000);
            lemma_square_bound(r as int, 0x1_0000_0000);
        }
        dx * dx + dz * dz < r * r
    }

    /// The opposite vector; a coordinate that cannot be negated saturates.
    pub fn negated(&self) -> (v: Vec3)
        ensures
            v == self.opposite(),
    {
        Vec3 {
            x: saturate(-(self.x as i128)),
            y: saturate(-(self.y as i128)),
            z: saturate(-(self.z as i128)),
        }
    }
}

} // verus!
