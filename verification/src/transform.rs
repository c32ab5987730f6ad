//! Affine transforms: a 3x3 linear part (rows of fixed-point scalars) and a
//! translation. An invertible world transform is carried together with its
//! inverse, which the constructor of the shape is handed; the intersection
//! routines use whichever direction they need.

use vstd::prelude::*;
use crate::fixed::{SCALE, mag, sat, sati, divt, lemma_divt_multiples};
use crate::vec3::{Vec3, vadd, vdot};
use vstd::arithmetic::div_mod::lemma_fundamental_div_mod;
use vstd::arithmetic::div_mod::lemma_mod_division_less_than_divisor;

verus! {

/// A 3x3 matrix, stored by rows.
#[derive(Clone, Copy, Debug, PartialEq, Eq, Structural)]
pub struct Mat3 {
    pub r0: Vec3,
    pub r1: Vec3,
    pub r2: Vec3,
}

/// An affine map `p -> linear * p + translation`.
#[derive(Clone, Copy, Debug, PartialEq, Eq, Structural)]
pub struct Affine {
    pub linear: Mat3,
    pub translation: Vec3,
}

/// The identity matrix.
pub open spec fn mat_identity() -> Mat3 {
    Mat3 {
        r0: Vec3 { x: SCALE, y: 0, z: 0 },
        r1: Vec3 { x: 0, y: SCALE, z: 0 },
        r2: Vec3 { x: 0, y: 0, z: SCALE },
    }
}

/// A pure translation.
pub open spec fn affine_translation(t: Vec3) -> Affine {
    Affine { linear: mat_identity(), translation: t }
}

/// Components small enough that a row of the identity matrix maps them
/// exactly (their product with `SCALE` does not saturate).
pub open spec fn coords_in_range(v: Vec3) -> bool {
    &&& mag(v.x as int) <= i128::MAX as int / (SCALE as int)
    &&& mag(v.y as int) <= i128::MAX as int / (SCALE as int)
    &&& mag(v.z as int) <= i128::MAX as int / (SCALE as int)
}

/// The linear part applied to a vector.
pub open spec fn mat_apply(m: Mat3, v: Vec3) -> Vec3 {
    Vec3 { x: sati(vdot(m.r0, v)), y: sati(vdot(m.r1, v)), z: sati(vdot(m.r2, v)) }
}

/// Rows and columns exchanged.
pub open spec fn mat_transpose(m: Mat3) -> Mat3 {
    Mat3 {
        r0: Vec3 { x: m.r0.x, y: m.r1.x, z: m.r2.x },
        r1: Vec3 { x: m.r0.y, y: m.r1.y, z: m.r2.y },
        r2: Vec3 { x: m.r0.z, y: m.r1.z, z: m.r2.z },
    }
}

/// The affine map applied to a point (rotate/scale, then translate).
pub open spec fn apply_point(t: Affine, p: Vec3) -> Vec3 {
    vadd(mat_apply(t.linear, p), t.translation)
}

/// The affine map applied to a direction (translation ignored).
pub open spec fn apply_vector(t: Affine, v: Vec3) -> Vec3 {
    mat_apply(t.linear, v)
}

/// A component within `coords_in_range` survives one diagonal step of the
/// identity matrix exactly: scaling by `SCALE` does not saturate, and the
/// final rescale recovers the component.
proof fn lemma_diag_component(x: i128)
    requires
        mag(x as int) <= i128::MAX as int / (SCALE as int),
    ensures
        sat(SCALE as int * (x as int)) == SCALE as int * (x as int),
        divt(SCALE as int * (x as int), SCALE as int) == x as int,
{
    let s = SCALE as int;
    let m = i128::MAX as int;
    lemma_fundamental_div_mod(m, s);
    lemma_mod_division_less_than_divisor(m, s);
    assert(s * (m / s) <= m);
    assert(mag(s * (x as int)) == s * mag(x as int)) by (nonlinear_arith)
        requires
            s > 0,
    ;
    assert(s * mag(x as int) <= s * (m / s)) by (nonlinear_arith)
        requires
            s > 0,
            mag(x as int) <= m / s,
    ;
    lemma_divt_multiples(x as int, s);
    assert((x as int) * s == s * (x as int)) by (nonlinear_arith);
}

/// Applying the identity matrix to a vector with in-range components
/// returns the vector unchanged.
pub proof fn lemma_identity_apply(v: Vec3)
    requires
        coords_in_range(v),
    ensures
        mat_apply(mat_identity(), v) == v,
{
    lemma_diag_component(v.x);
    lemma_diag_component(v.y);
    lemma_diag_component(v.z);
}

impl Mat3 {
    /// The linear part applied to a vector.
    pub fn apply(&self, v: Vec3) -> (r: Vec3)
        ensures
            r == mat_apply(*self, v),
    {
        Vec3 { x: self.r0.dot(v), y: self.r1.dot(v), z: self.r2.dot(v) }
    }

    /// Rows and columns exchanged.
    pub fn transpose(&self) -> (r: Mat3)
        ensures
            r == mat_transpose(*self),
    {
        Mat3 {
            r0: Vec3 { x: self.r0.x, y: self.r1.x, z: self.r2.x },
            r1: Vec3 { x: self.r0.y, y: self.r1.y, z: self.r2.y },
            r2: Vec3 { x: self.r0.z, y: self.r1.z, z: self.r2.z },
        }
    }

    /// The identity matrix.
    pub fn identity() -> (r: Mat3)
        ensures
            r == (Mat3 {
                r0: Vec3 { x: SCALE, y: 0, z: 0 },
                r1: Vec3 { x: 0, y: SCALE, z: 0 },
                r2: Vec3 { x: 0, y: 0, z: SCALE },
            }),
    {
        Mat3 {
            r0: Vec3 { x: SCALE, y: 0, z: 0 },
            r1: Vec3 { x: 0, y: SCALE, z: 0 },
            r2: Vec3 { x: 0, y: 0, z: SCALE },
        }
    }
}

impl Affine {
    /// The affine map applied to a point.
    pub fn transform_point(&self, p: Vec3) -> (r: Vec3)
        ensures
            r == apply_point(*self, p),
    {
        self.linear.apply(p).plus(self.translation)
    }

    /// The affine map applied to a direction.
    pub fn transform_vector(&self, v: Vec3) -> (r: Vec3)
        ensures
            r == apply_vector(*self, v),
    {
        self.linear.apply(v)
    }

    /// The identity map.
    pub fn identity() -> (r: Affine)
        ensures
            r == (Affine {
                linear: Mat3 {
                    r0: Vec3 { x: SCALE, y: 0, z: 0 },
                    r1: Vec3 { x: 0, y: SCALE, z: 0 },
                    r2: Vec3 { x: 0, y: 0, z: SCALE },
                },
                translation: Vec3 { x: 0, y: 0, z: 0 },
            }),
    {
        Affine { linear: Mat3::identity(), translation: Vec3 { x: 0, y: 0, z: 0 } }
    }

    /// A pure translation.
    pub fn translate(t: Vec3) -> (r: Affine)
        ensures
            r == (Affine {
                linear: Mat3 {
                    r0: Vec3 { x: SCALE, y: 0, z: 0 },
                    r1: Vec3 { x: 0, y: SCALE, z: 0 },
                    r2: Vec3 { x: 0, y: 0, z: SCALE },
                },
                translation: t,
            }),
    {
        Affine { linear: Mat3::identity(), translation: t }
    }
}

} // verus!
