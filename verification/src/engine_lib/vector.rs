//! Spatial vectors and affine transforms in fixed-point coordinates.
use crate::fixed::div_floor;
use crate::fixed::lemma_floor_div_bounds;
use crate::fixed::saturate;
use crate::fixed::spec_saturate;
use crate::fixed::wide_mul;
use crate::fixed::wide_sub;
use crate::fixed::ONE;
use vstd::prelude::*;

verus! {

/// A point or a direction of space.
#[derive(Clone, Copy, Debug, PartialEq, Eq, Structural)]
pub struct Vec3 {
    pub x: i32,
    pub y: i32,
    pub z: i32,
}

/// A point of space, where the name says more than [`Vec3`] does.
pub type Point3 = Vec3;

/// The exact sum of products `a.x * b.x + a.y * b.y + a.z * b.z`, in squared
/// coordinate units.
pub open spec fn dot_exact(a: Vec3, b: Vec3) -> int {
    a.x * b.x + a.y * b.y + a.z * b.z
}

/// The exact signed distance of `p` from the plane through `origin` with
/// normal `normal`, scaled by the length of the normal: the dot product of
/// the normal with `p - origin`, in squared coordinate units.
pub open spec fn plane_distance_exact(normal: Vec3, origin: Vec3, p: Vec3) -> int {
    normal.x * (p.x - origin.x) + normal.y * (p.y - origin.y) + normal.z * (p.z - origin.z)
}

/// Whether `root` is the integer square root of `n`.
pub open spec fn is_integer_sqrt(root: int, n: int) -> bool {
    0 <= root && root * root <= n < (root + 1) * (root + 1)
}

/// The integer square root of `n`.
pub fn integer_sqrt(n: u64) -> (root: u64)
    ensures
        is_integer_sqrt(root as int, n as int),
        root <= 0xffff_ffff,
{
    let mut lo: u64 = 0;
    let mut hi: u64 = 0xffff_ffff;
    assert((hi + 1) * (hi + 1) > n) by (nonlinear_arith)
        requires
            hi == 0xffff_ffff,
            n <= 0xffff_ffff_ffff_ffff,
    ;
    while lo < hi
        invariant
            lo <= hi <= 0xffff_ffff,
            lo * lo <= n,
            n < (hi + 1) * (hi + 1),
        decreases hi - lo,
    {
        let mid: u64 = lo + (hi - lo + 1) / 2;
        assert(mid * mid <= 0xffff_ffff * 0xffff_ffff) by (nonlinear_arith)
            requires
                0 <= mid <= 0xffff_ffff,
        ;
        if mid * mid <= n {
            lo = mid;
        } else {
            hi = mid - 1;
        }
    }
    lo
}

/// A number has one integer square root.
pub proof fn lemma_integer_sqrt_unique(r1: int, r2: int, n: int)
    requires
        is_integer_sqrt(r1, n),
        is_integer_sqrt(r2, n),
    ensures
        r1 == r2,
{
    if r1 < r2 {
        assert((r1 + 1) * (r1 + 1) <= r2 * r2) by (nonlinear_arith)
            requires
                0 <= r1,
                r1 + 1 <= r2,
        ;
    } else if r2 < r1 {
        assert((r2 + 1) * (r2 + 1) <= r1 * r1) by (nonlinear_arith)
            requires
                0 <= r2,
                r2 + 1 <= r1,
        ;
    }
}

impl Vec3 {
    /// The component-wise sum, each component saturated.
    pub open spec fn spec_offset(self, delta: Vec3) -> Vec3 {
        Vec3 {
            x: spec_saturate(self.x + delta.x) as i32,
            y: spec_saturate(self.y + delta.y) as i32,
            z: spec_saturate(self.z + delta.z) as i32,
        }
    }

    /// The component-wise difference, each component saturated.
    pub open spec fn spec_sub(self, other: Vec3) -> Vec3 {
        Vec3 {
            x: spec_saturate(self.x - other.x) as i32,
            y: spec_saturate(self.y - other.y) as i32,
            z: spec_saturate(self.z - other.z) as i32,
        }
    }

    /// The opposite vector, each component saturated.
    pub open spec fn spec_negated(self) -> Vec3 {
        Vec3 {
            x: spec_saturate(-(self.x as int)) as i32,
            y: spec_saturate(-(self.y as int)) as i32,
            z: spec_saturate(-(self.z as int)) as i32,
        }
    }

    /// The dot product as a fixed-point number, rounded down.
    pub open spec fn spec_dot(self, other: Vec3) -> int {
        dot_exact(self, other) / (ONE as int)
    }

    /// The cross product, each component rounded down and saturated.
    pub open spec fn spec_cross(self, other: Vec3) -> Vec3 {
        Vec3 {
            x: spec_saturate((self.y * other.z - self.z * other.y) / (ONE as int)) as i32,
            y: spec_saturate((self.z * other.x - self.x * other.z) / (ONE as int)) as i32,
            z: spec_saturate((self.x * other.y - self.y * other.x) / (ONE as int)) as i32,
        }
    }

    /// The length as a fixed-point number, rounded down: the integer
    /// square root of the exact sum of squares.
    pub open spec fn spec_length(self) -> int {
        choose|root: int| is_integer_sqrt(root, dot_exact(self, self))
    }

    /// The vector scaled to unit length, each component rounded down; the
    /// zero vector where the length rounds to zero.
    pub open spec fn spec_normalize(self) -> Vec3 {
        let length = self.spec_length();
        if length == 0 {
            Vec3 { x: 0, y: 0, z: 0 }
        } else {
            Vec3 {
                x: spec_saturate((self.x * (ONE as int)) / length) as i32,
                y: spec_saturate((self.y * (ONE as int)) / length) as i32,
                z: spec_saturate((self.z * (ONE as int)) / length) as i32,
            }
        }
    }

    pub fn new(x: i32, y: i32, z: i32) -> (v: Self)
        ensures
            v == (Vec3 { x, y, z }),
    {
        Vec3 { x, y, z }
    }

    /// The zero vector.
    pub fn zero() -> (v: Self)
        ensures
            v == (Vec3 { x: 0, y: 0, z: 0 }),
    {
        Vec3 { x: 0, y: 0, z: 0 }
    }

    /// The point reached from `self` by `delta`.
    pub fn offset(&self, delta: &Vec3) -> (v: Vec3)
        ensures
            v == self.spec_offset(*delta),
    {
        Vec3 {
            x: saturate(self.x as i128 + delta.x as i128),
            y: saturate(self.y as i128 + delta.y as i128),
            z: saturate(self.z as i128 + delta.z as i128),
        }
    }

    pub fn sub(&self, other: &Vec3) -> (v: Vec3)
        ensures
            v == self.spec_sub(*other),
    {
        Vec3 {
            x: saturate(wide_sub(self.x, other.x) as i128),
            y: saturate(wide_sub(self.y, other.y) as i128),
            z: saturate(wide_sub(self.z, other.z) as i128),
        }
    }

    /// The opposite vector.
    pub fn negated(&self) -> (v: Vec3)
        ensures
            v == self.spec_negated(),
    {
        Vec3 {
            x: saturate(-(self.x as i128)),
            y: saturate(-(self.y as i128)),
            z: saturate(-(self.z as i128)),
        }
    }

    /// The exact sum of the products of the components.
    pub fn dot_wide(&self, other: &Vec3) -> (d: i128)
        ensures
            d as int == dot_exact(*self, *other),
            -0xc000_0000_0000_0000 <= d <= 0xc000_0000_0000_0000,
    {
        wide_mul(self.x, other.x) + wide_mul(self.y, other.y) + wide_mul(self.z, other.z)
    }

    pub fn dot(&self, other: &Vec3) -> (d: i64)
        ensures
            d as int == self.spec_dot(*other),
    {
        let sum: i128 = self.dot_wide(other);
        let q: i128 = div_floor(sum, ONE as i128);
        proof {
            lemma_floor_div_bounds(sum as int, ONE as int);
        }
        q as i64
    }

    pub fn cross(&self, other: &Vec3) -> (v: Vec3)
        ensures
            v == self.spec_cross(*other),
    {
        let x: i128 = div_floor(
            wide_mul(self.y, other.z) - wide_mul(self.z, other.y),
            ONE as i128,
        );
        let y: i128 = div_floor(
            wide_mul(self.z, other.x) - wide_mul(self.x, other.z),
            ONE as i128,
        );
        let z: i128 = div_floor(
            wide_mul(self.x, other.y) - wide_mul(self.y, other.x),
            ONE as i128,
        );
        Vec3 { x: saturate(x), y: saturate(y), z: saturate(z) }
    }

    pub fn length(&self) -> (l: i64)
        ensures
            l as int == self.spec_length(),
            is_integer_sqrt(l as int, dot_exact(*self, *self)),
    {
        let sum: i128 = self.dot_wide(self);
        assert(sum >= 0) by (nonlinear_arith)
            requires
                sum as int == self.x * self.x + self.y * self.y + self.z * self.z,
        ;
        let root: u64 = integer_sqrt(sum as u64);
        proof {
            lemma_integer_sqrt_unique(root as int, self.spec_length(), sum as int);
        }
        root as i64
    }

    pub fn normalize(&self) -> (v: Vec3)
        ensures
            v == self.spec_normalize(),
    {
        let length: i64 = self.length();
        if length == 0 {
            return Vec3 { x: 0, y: 0, z: 0 };
        }
        let x: i128 = div_floor(wide_mul(self.x, ONE), length as i128);
        let y: i128 = div_floor(wide_mul(self.y, ONE), length as i128);
        let z: i128 = div_floor(wide_mul(self.z, ONE), length as i128);
        Vec3 { x: saturate(x), y: saturate(y), z: saturate(z) }
    }
}

/// The exact signed distance of `p` from the plane through `origin` with
/// normal `normal`, scaled by the length of the normal.
pub fn plane_distance(normal: &Vec3, origin: &Vec3, p: &Vec3) -> (d: i128)
    ensures
        d as int == plane_distance_exact(*normal, *origin, *p),
        -0x2_0000_0000_0000_0000 <= d <= 0x2_0000_0000_0000_0000,
{
    let dx: i64 = wide_sub(p.x, origin.x);
    let dy: i64 = wide_sub(p.y, origin.y);
    let dz: i64 = wide_sub(p.z, origin.z);
    let tx: i128 = scale_difference(normal.x, dx);
    let ty: i128 = scale_difference(normal.y, dy);
    let tz: i128 = scale_difference(normal.z, dz);
    tx + ty + tz
}

/// The exact product of a scalar and a difference of scalars.
fn scale_difference(a: i32, d: i64) -> (p: i128)
    requires
        -0xffff_ffff <= d <= 0xffff_ffff,
    ensures
        p as int == (a as int) * (d as int),
        -0x8000_0000_0000_0000 <= p <= 0x8000_0000_0000_0000,
{
    assert(-0x8000_0000_0000_0000 <= (a as int) * (d as int) <= 0x8000_0000_0000_0000)
        by (nonlinear_arith)
        requires
            -0x8000_0000 <= a <= 0x7fff_ffff,
            -0xffff_ffff <= d <= 0xffff_ffff,
    ;
    (a as i128) * (d as i128)
}

} // verus!
