//! Affine transforms of space: a linear part given by its three columns and
//! a translation.
use crate::engine_lib::vector::Vec3;
use crate::fixed::div_floor;
use crate::fixed::lemma_floor_div_bounds;
use crate::fixed::saturate;
use crate::fixed::spec_saturate;
use crate::fixed::wide_mul;
use crate::fixed::ONE;
use vstd::arithmetic::div_mod::lemma_fundamental_div_mod_converse;
use vstd::prelude::*;

verus! {

/// An affine transform. A point `p` is taken to
/// `x_axis * p.x + y_axis * p.y + z_axis * p.z + translation`.
#[derive(Clone, Copy, Debug, PartialEq, Eq, Structural)]
pub struct Transform {
    pub x_axis: Vec3,
    pub y_axis: Vec3,
    pub z_axis: Vec3,
    pub translation: Vec3,
}

/// 2^32: the square of the fixed-point one.
pub const ONE_SQUARED: i128 = 0x1_0000_0000;

/// One component of a transformed point: the row `(ax, ay, az)` applied to
/// `v`, rounded down, moved by `t` and saturated.
pub open spec fn combine(ax: int, ay: int, az: int, v: Vec3, t: int) -> int {
    spec_saturate((ax * v.x + ay * v.y + az * v.z) / (ONE as int) + t)
}

/// The exact cross product of `u` and `v`, in squared coordinate units.
pub open spec fn cross_exact(u: Vec3, v: Vec3) -> (int, int, int) {
    (u.y * v.z - u.z * v.y, u.z * v.x - u.x * v.z, u.x * v.y - u.y * v.x)
}

/// The cofactor `c` over the determinant `det`, as a fixed-point number
/// rounded down and saturated.
pub open spec fn cofactor_ratio(c: int, det: int) -> int {
    if det > 0 {
        spec_saturate((c * (ONE_SQUARED as int)) / det)
    } else {
        spec_saturate(((-c) * (ONE_SQUARED as int)) / (-det))
    }
}

impl Transform {
    pub open spec fn spec_identity() -> Transform {
        Transform {
            x_axis: Vec3 { x: ONE, y: 0, z: 0 },
            y_axis: Vec3 { x: 0, y: ONE, z: 0 },
            z_axis: Vec3 { x: 0, y: 0, z: ONE },
            translation: Vec3 { x: 0, y: 0, z: 0 },
        }
    }

    pub open spec fn spec_from_translation(translation: Vec3) -> Transform {
        Transform {
            x_axis: Vec3 { x: ONE, y: 0, z: 0 },
            y_axis: Vec3 { x: 0, y: ONE, z: 0 },
            z_axis: Vec3 { x: 0, y: 0, z: ONE },
            translation,
        }
    }

    /// The image of the direction `v`: the linear part alone.
    pub open spec fn spec_transform_vector3(self, v: Vec3) -> Vec3 {
        Vec3 {
            x: combine(self.x_axis.x as int, self.y_axis.x as int, self.z_axis.x as int, v, 0) as i32,
            y: combine(self.x_axis.y as int, self.y_axis.y as int, self.z_axis.y as int, v, 0) as i32,
            z: combine(self.x_axis.z as int, self.y_axis.z as int, self.z_axis.z as int, v, 0) as i32,
        }
    }

    /// The image of the point `p`.
    pub open spec fn spec_transform_point3(self, p: Vec3) -> Vec3 {
        Vec3 {
            x: combine(
                self.x_axis.x as int,
                self.y_axis.x as int,
                self.z_axis.x as int,
                p,
                self.translation.x as int,
            ) as i32,
            y: combine(
                self.x_axis.y as int,
                self.y_axis.y as int,
                self.z_axis.y as int,
                p,
                self.translation.y as int,
            ) as i32,
            z: combine(
                self.x_axis.z as int,
                self.y_axis.z as int,
                self.z_axis.z as int,
                p,
                self.translation.z as int,
            ) as i32,
        }
    }

    /// The transform that applies `rhs` first and `self` second.
    pub open spec fn spec_mul_transform(self, rhs: Transform) -> Transform {
        Transform {
            x_axis: self.spec_transform_vector3(rhs.x_axis),
            y_axis: self.spec_transform_vector3(rhs.y_axis),
            z_axis: self.spec_transform_vector3(rhs.z_axis),
            translation: self.spec_transform_point3(rhs.translation),
        }
    }

    /// The determinant of the linear part, in cubed coordinate units.
    pub open spec fn determinant(self) -> int {
        let c = cross_exact(self.y_axis, self.z_axis);
        self.x_axis.x * c.0 + self.x_axis.y * c.1 + self.x_axis.z * c.2
    }

    /// The linear part of the inverse, by cofactors over the determinant.
    pub open spec fn spec_inverse_linear(self) -> Transform {
        let det = self.determinant();
        let r0 = cross_exact(self.y_axis, self.z_axis);
        let r1 = cross_exact(self.z_axis, self.x_axis);
        let r2 = cross_exact(self.x_axis, self.y_axis);
        Transform {
            x_axis: Vec3 {
                x: cofactor_ratio(r0.0, det) as i32,
                y: cofactor_ratio(r1.0, det) as i32,
                z: cofactor_ratio(r2.0, det) as i32,
            },
            y_axis: Vec3 {
                x: cofactor_ratio(r0.1, det) as i32,
                y: cofactor_ratio(r1.1, det) as i32,
                z: cofactor_ratio(r2.1, det) as i32,
            },
            z_axis: Vec3 {
                x: cofactor_ratio(r0.2, det) as i32,
                y: cofactor_ratio(r1.2, det) as i32,
                z: cofactor_ratio(r2.2, det) as i32,
            },
            translation: Vec3 { x: 0, y: 0, z: 0 },
        }
    }

    /// The inverse transform, or `None` where the determinant is zero.
    pub open spec fn spec_inverse(self) -> Option<Transform> {
        if self.determinant() == 0 {
            None
        } else {
            let linear = self.spec_inverse_linear();
            Some(
                Transform {
                    x_axis: linear.x_axis,
                    y_axis: linear.y_axis,
                    z_axis: linear.z_axis,
                    translation: linear.spec_transform_vector3(self.translation).spec_negated(),
                },
            )
        }
    }

    pub fn identity() -> (t: Self)
        ensures
            t == Self::spec_identity(),
    {
        Transform {
            x_axis: Vec3 { x: ONE, y: 0, z: 0 },
            y_axis: Vec3 { x: 0, y: ONE, z: 0 },
            z_axis: Vec3 { x: 0, y: 0, z: ONE },
            translation: Vec3 { x: 0, y: 0, z: 0 },
        }
    }

    pub fn from_translation(translation: Vec3) -> (t: Self)
        ensures
            t == Self::spec_from_translation(translation),
    {
        Transform {
            x_axis: Vec3 { x: ONE, y: 0, z: 0 },
            y_axis: Vec3 { x: 0, y: ONE, z: 0 },
            z_axis: Vec3 { x: 0, y: 0, z: ONE },
            translation,
        }
    }

    /// One component of a transformed point.
    fn combine_row(ax: i32, ay: i32, az: i32, v: &Vec3, t: i32) -> (c: i32)
        ensures
            c as int == combine(ax as int, ay as int, az as int, *v, t as int),
    {
        let sum: i128 = wide_mul(ax, v.x) + wide_mul(ay, v.y) + wide_mul(az, v.z);
        let q: i128 = div_floor(sum, ONE as i128);
        proof {
            lemma_floor_div_bounds(sum as int, ONE as int);
        }
        saturate(q + t as i128)
    }

    pub fn transform_vector3(&self, v: Vec3) -> (image: Vec3)
        ensures
            image == self.spec_transform_vector3(v),
    {
        Vec3 {
            x: Self::combine_row(self.x_axis.x, self.y_axis.x, self.z_axis.x, &v, 0),
            y: Self::combine_row(self.x_axis.y, self.y_axis.y, self.z_axis.y, &v, 0),
            z: Self::combine_row(self.x_axis.z, self.y_axis.z, self.z_axis.z, &v, 0),
        }
    }

    pub fn transform_point3(&self, p: Vec3) -> (image: Vec3)
        ensures
            image == self.spec_transform_point3(p),
    {
        Vec3 {
            x: Self::combine_row(
                self.x_axis.x,
                self.y_axis.x,
                self.z_axis.x,
                &p,
                self.translation.x,
            ),
            y: Self::combine_row(
                self.x_axis.y,
                self.y_axis.y,
                self.z_axis.y,
                &p,
                self.translation.y,
            ),
            z: Self::combine_row(
                self.x_axis.z,
                self.y_axis.z,
                self.z_axis.z,
                &p,
                self.translation.z,
            ),
        }
    }

    /// The transform that applies `rhs` first and `self` second.
    pub fn mul_transform(&self, rhs: &Transform) -> (product: Transform)
        ensures
            product == self.spec_mul_transform(*rhs),
    {
        Transform {
            x_axis: self.transform_vector3(rhs.x_axis),
            y_axis: self.transform_vector3(rhs.y_axis),
            z_axis: self.transform_vector3(rhs.z_axis),
            translation: self.transform_point3(rhs.translation),
        }
    }

    /// The exact cross product of two columns.
    fn cross_wide(u: &Vec3, v: &Vec3) -> (c: (i128, i128, i128))
        ensures
            (c.0 as int, c.1 as int, c.2 as int) == cross_exact(*u, *v),
            -0x8000_0000_0000_0000 <= c.0 <= 0x8000_0000_0000_0000,
            -0x8000_0000_0000_0000 <= c.1 <= 0x8000_0000_0000_0000,
            -0x8000_0000_0000_0000 <= c.2 <= 0x8000_0000_0000_0000,
    {
        (
            wide_mul(u.y, v.z) - wide_mul(u.z, v.y),
            wide_mul(u.z, v.x) - wide_mul(u.x, v.z),
            wide_mul(u.x, v.y) - wide_mul(u.y, v.x),
        )
    }

    /// The exact product of a scalar and a cofactor.
    fn scale_cofactor(a: i32, c: i128) -> (p: i128)
        requires
            -0x8000_0000_0000_0000 <= c <= 0x8000_0000_0000_0000,
        ensures
            p as int == (a as int) * (c as int),
            -0x4000_0000_0000_0000_0000_0000 <= p <= 0x4000_0000_0000_0000_0000_0000,
    {
        assert(-0x4000_0000_0000_0000_0000_0000 <= (a as int) * (c as int)
            <= 0x4000_0000_0000_0000_0000_0000) by (nonlinear_arith)
            requires
                -0x8000_0000 <= a <= 0x7fff_ffff,
                -0x8000_0000_0000_0000 <= c <= 0x8000_0000_0000_0000,
        ;
        (a as i128) * c
    }

    /// A cofactor over the determinant.
    fn ratio(c: i128, det: i128) -> (r: i32)
        requires
            det != 0,
            -0x8000_0000_0000_0000 <= c <= 0x8000_0000_0000_0000,
            -0xc000_0000_0000_0000_0000_0000 <= det <= 0xc000_0000_0000_0000_0000_0000,
        ensures
            r as int == cofactor_ratio(c as int, det as int),
    {
        let (n, d): (i128, i128) = if det > 0 {
            (c, det)
        } else {
            (-c, -det)
        };
        let scaled: i128 = n * ONE_SQUARED;
        let q: i128 = div_floor(scaled, d);
        saturate(q)
    }

    /// The inverse transform, or `None` where the linear part cannot be
    /// inverted.
    pub fn inverse(&self) -> (inverse: Option<Transform>)
        ensures
            inverse == self.spec_inverse(),
    {
        let r0 = Self::cross_wide(&self.y_axis, &self.z_axis);
        let r1 = Self::cross_wide(&self.z_axis, &self.x_axis);
        let r2 = Self::cross_wide(&self.x_axis, &self.y_axis);
        let det: i128 = Self::scale_cofactor(self.x_axis.x, r0.0) + Self::scale_cofactor(
            self.x_axis.y,
            r0.1,
        ) + Self::scale_cofactor(self.x_axis.z, r0.2);
        if det == 0 {
            return None;
        }
        let linear = Transform {
            x_axis: Vec3 {
                x: Self::ratio(r0.0, det),
                y: Self::ratio(r1.0, det),
                z: Self::ratio(r2.0, det),
            },
            y_axis: Vec3 {
                x: Self::ratio(r0.1, det),
                y: Self::ratio(r1.1, det),
                z: Self::ratio(r2.1, det),
            },
            z_axis: Vec3 {
                x: Self::ratio(r0.2, det),
                y: Self::ratio(r1.2, det),
                z: Self::ratio(r2.2, det),
            },
            translation: Vec3 { x: 0, y: 0, z: 0 },
        };
        assert(linear == self.spec_inverse_linear());
        let back: Vec3 = linear.transform_vector3(self.translation);
        Some(
            Transform {
                x_axis: linear.x_axis,
                y_axis: linear.y_axis,
                z_axis: linear.z_axis,
                translation: back.negated(),
            },
        )
    }
}

/// A fixed-point number times one is itself.
pub proof fn lemma_times_one(x: int)
    ensures
        ((ONE as int) * x) / (ONE as int) == x,
        (x * (ONE as int)) / (ONE as int) == x,
{
    lemma_fundamental_div_mod_converse((ONE as int) * x, ONE as int, x, 0);
    assert(x * (ONE as int) == (ONE as int) * x);
}

/// A row of the identity picks its component: a translation moves a point
/// by its offset and leaves a direction alone.
pub proof fn lemma_translation_acts(translation: Vec3, p: Vec3)
    ensures
        Transform::spec_from_translation(translation).spec_transform_point3(p) == p.spec_offset(
            translation,
        ),
        Transform::spec_from_translation(translation).spec_transform_vector3(p) == p,
{
    lemma_times_one(p.x as int);
    lemma_times_one(p.y as int);
    lemma_times_one(p.z as int);
}

/// The identity leaves every point and direction alone.
pub proof fn lemma_identity_acts(p: Vec3)
    ensures
        Transform::spec_identity().spec_transform_point3(p) == p,
        Transform::spec_identity().spec_transform_vector3(p) == p,
{
    lemma_translation_acts(Vec3 { x: 0, y: 0, z: 0 }, p);
}

/// A translation after a transform keeps the linear part and moves the
/// translation by the offset.
pub proof fn lemma_translation_composes(offset: Vec3, pose: Transform)
    ensures
        Transform::spec_from_translation(offset).spec_mul_transform(pose) == (Transform {
            x_axis: pose.x_axis,
            y_axis: pose.y_axis,
            z_axis: pose.z_axis,
            translation: pose.translation.spec_offset(offset),
        }),
{
    lemma_translation_acts(offset, pose.x_axis);
    lemma_translation_acts(offset, pose.y_axis);
    lemma_translation_acts(offset, pose.z_axis);
    lemma_translation_acts(offset, pose.translation);
}

/// The inverse of a translation is the translation by the opposite offset.
pub proof fn lemma_translation_inverse(offset: Vec3)
    ensures
        Transform::spec_from_translation(offset).spec_inverse() == Some(
            Transform::spec_from_translation(offset.spec_negated()),
        ),
{
    let t = Transform::spec_from_translation(offset);
    let one = ONE as int;
    assert(t.determinant() == one * (one * one)) by (nonlinear_arith)
        requires
            t.x_axis == (Vec3 { x: ONE, y: 0, z: 0 }),
            t.y_axis == (Vec3 { x: 0, y: ONE, z: 0 }),
            t.z_axis == (Vec3 { x: 0, y: 0, z: ONE }),
            one == ONE as int,
            t.determinant() == t.x_axis.x * (t.y_axis.y * t.z_axis.z - t.y_axis.z * t.z_axis.y)
                + t.x_axis.y * (t.y_axis.z * t.z_axis.x - t.y_axis.x * t.z_axis.z) + t.x_axis.z
                * (t.y_axis.x * t.z_axis.y - t.y_axis.y * t.z_axis.x),
    ;
    let det = t.determinant();
    assert(det == 0x1_0000_0000_0000);
    assert(cofactor_ratio(0, det) == 0);
    assert(cofactor_ratio(0x1_0000_0000, det) == one) by {
        lemma_fundamental_div_mod_converse(
            0x1_0000_0000int * 0x1_0000_0000int,
            0x1_0000_0000_0000,
            0x1_0000,
            0,
        );
    }
    let r0 = cross_exact(t.y_axis, t.z_axis);
    let r1 = cross_exact(t.z_axis, t.x_axis);
    let r2 = cross_exact(t.x_axis, t.y_axis);
    assert(r0 == (0x1_0000_0000int, 0int, 0int));
    assert(r1 == (0int, 0x1_0000_0000int, 0int));
    assert(r2 == (0int, 0int, 0x1_0000_0000int));
    let linear = t.spec_inverse_linear();
    assert(linear == Transform::spec_identity());
    lemma_identity_acts(offset);
}

} // verus!
