//! Three-component vectors and points over the fixed-point scalar.
//!
//! Every executable operation returns exactly the value of its spec-level
//! mirror (`vadd`, `vdot`, ...), so geometric code above proves equalities,
//! not approximations.

use vstd::prelude::*;
use crate::fixed::{SCALE, sat, sati, divt, mulfx, divfx, sqrtfx};
use crate::fixed::{add_fx, sub_fx, mul_sat, div_t, mul_fx, div_fx, sqrt_fx};

verus! {

broadcast use crate::fixed::lemma_mulfx_range;

/// A vector or point; each component holds its value times `SCALE`.
#[derive(Clone, Copy, Debug, PartialEq, Eq, Structural)]
pub struct Vec3 {
    pub x: i128,
    pub y: i128,
    pub z: i128,
}

/// Componentwise sum, saturating.
pub open spec fn vadd(u: Vec3, v: Vec3) -> Vec3 {
    Vec3 { x: sati(u.x + v.x), y: sati(u.y + v.y), z: sati(u.z + v.z) }
}

/// Componentwise difference, saturating.
pub open spec fn vsub(u: Vec3, v: Vec3) -> Vec3 {
    Vec3 { x: sati(u.x - v.x), y: sati(u.y - v.y), z: sati(u.z - v.z) }
}

/// Componentwise negation, saturating.
pub open spec fn vneg(v: Vec3) -> Vec3 {
    Vec3 { x: sati(-v.x), y: sati(-v.y), z: sati(-v.z) }
}

/// The vector scaled by a fixed-point factor.
pub open spec fn vscale(v: Vec3, t: int) -> Vec3 {
    Vec3 { x: sati(mulfx(v.x as int, t)), y: sati(mulfx(v.y as int, t)), z: sati(mulfx(v.z as int, t)) }
}

/// Fixed-point dot product: raw componentwise products are summed once and
/// rescaled once, each step saturating.
pub open spec fn vdot(u: Vec3, v: Vec3) -> int {
    divt(
        sat(sat(sat(u.x * v.x) + sat(u.y * v.y)) + sat(u.z * v.z)),
        SCALE as int,
    )
}

/// Fixed-point cross product.
pub open spec fn vcross(u: Vec3, v: Vec3) -> Vec3 {
    Vec3 {
        x: sati(mulfx(u.y as int, v.z as int) - mulfx(u.z as int, v.y as int)),
        y: sati(mulfx(u.z as int, v.x as int) - mulfx(u.x as int, v.z as int)),
        z: sati(mulfx(u.x as int, v.y as int) - mulfx(u.y as int, v.x as int)),
    }
}

/// Euclidean length of the vector.
pub open spec fn vlen(v: Vec3) -> int {
    sqrtfx(sat(vdot(v, v)))
}

/// The vector divided by its length; the zero vector when the length
/// rounds to zero (a degenerate direction).
pub open spec fn vnormalize(v: Vec3) -> Vec3 {
    let l = vlen(v);
    if l == 0 {
        Vec3 { x: 0, y: 0, z: 0 }
    } else {
        Vec3 {
            x: sati(divfx(v.x as int, l)),
            y: sati(divfx(v.y as int, l)),
            z: sati(divfx(v.z as int, l)),
        }
    }
}

/// Euclidean distance between two points.
pub open spec fn vdist(p: Vec3, q: Vec3) -> int {
    vlen(vsub(p, q))
}

/// Componentwise (element-wise) product.
pub open spec fn velem(u: Vec3, v: Vec3) -> Vec3 {
    Vec3 {
        x: sati(mulfx(u.x as int, v.x as int)),
        y: sati(mulfx(u.y as int, v.y as int)),
        z: sati(mulfx(u.z as int, v.z as int)),
    }
}

/// Each component divided by a whole (unscaled) count; zero when `n == 0`.
pub open spec fn vdiv_count(v: Vec3, n: int) -> Vec3 {
    Vec3 {
        x: sati(divt(v.x as int, n)),
        y: sati(divt(v.y as int, n)),
        z: sati(divt(v.z as int, n)),
    }
}

impl Vec3 {
    /// Build a vector from raw fixed-point components.
    pub fn new(x: i128, y: i128, z: i128) -> (r: Vec3)
        ensures
            r == (Vec3 { x, y, z }),
    {
        Vec3 { x, y, z }
    }

    /// Componentwise sum.
    pub fn plus(self, o: Vec3) -> (r: Vec3)
        ensures
            r == vadd(self, o),
    {
        Vec3 { x: add_fx(self.x, o.x), y: add_fx(self.y, o.y), z: add_fx(self.z, o.z) }
    }

    /// Componentwise difference.
    pub fn minus(self, o: Vec3) -> (r: Vec3)
        ensures
            r == vsub(self, o),
    {
        Vec3 { x: sub_fx(self.x, o.x), y: sub_fx(self.y, o.y), z: sub_fx(self.z, o.z) }
    }

    /// Componentwise negation.
    pub fn negate(self) -> (r: Vec3)
        ensures
            r == vneg(self),
    {
        Vec3 { x: sub_fx(0, self.x), y: sub_fx(0, self.y), z: sub_fx(0, self.z) }
    }

    /// This vector scaled by a fixed-point factor.
    pub fn scale(self, t: i128) -> (r: Vec3)
        ensures
            r == vscale(self, t as int),
    {
        Vec3 { x: mul_fx(self.x, t), y: mul_fx(self.y, t), z: mul_fx(self.z, t) }
    }

    /// Fixed-point dot product.
    pub fn dot(self, o: Vec3) -> (r: i128)
        ensures
            r == sati(vdot(self, o)),
    {
        let px: i128 = mul_sat(self.x, o.x);
        let py: i128 = mul_sat(self.y, o.y);
        let pz: i128 = mul_sat(self.z, o.z);
        let s: i128 = add_fx(add_fx(px, py), pz);
        div_t(s, SCALE)
    }

    /// Fixed-point cross product.
    pub fn cross(self, o: Vec3) -> (r: Vec3)
        ensures
            r == vcross(self, o),
    {
        Vec3 {
            x: sub_fx(mul_fx(self.y, o.z), mul_fx(self.z, o.y)),
            y: sub_fx(mul_fx(self.z, o.x), mul_fx(self.x, o.z)),
            z: sub_fx(mul_fx(self.x, o.y), mul_fx(self.y, o.x)),
        }
    }

    /// Euclidean length.
    pub fn length(self) -> (r: i128)
        ensures
            r == sati(vlen(self)),
            r >= 0,
    {
        let d: i128 = self.dot(self);
        let r: i128 = sqrt_fx(d);
        proof {
            crate::fixed::lemma_sqrtfx_range(d as int);
        }
        r
    }

    /// The vector divided by its length; zero for a degenerate direction.
    pub fn normalize(self) -> (r: Vec3)
        ensures
            r == vnormalize(self),
    {
        let l: i128 = self.length();
        proof {
            crate::fixed::lemma_sqrtfx_range(sat(vdot(self, self)) as int);
        }
        if l == 0 {
            Vec3 { x: 0, y: 0, z: 0 }
        } else {
            Vec3 { x: div_fx(self.x, l), y: div_fx(self.y, l), z: div_fx(self.z, l) }
        }
    }

    /// Componentwise (element-wise) product.
    pub fn mul_element(self, o: Vec3) -> (r: Vec3)
        ensures
            r == velem(self, o),
    {
        Vec3 {
            x: mul_fx(self.x, o.x),
            y: mul_fx(self.y, o.y),
            z: mul_fx(self.z, o.z),
        }
    }

    /// Each component divided by a whole (unscaled) count.
    pub fn divide_count(self, n: i128) -> (r: Vec3)
        ensures
            r == vdiv_count(self, n as int),
    {
        Vec3 { x: div_t(self.x, n), y: div_t(self.y, n), z: div_t(self.z, n) }
    }

    /// Euclidean distance to another point.
    pub fn distance(self, o: Vec3) -> (r: i128)
        ensures
            r == sati(vdist(self, o)),
            r >= 0,
    {
        self.minus(o).length()
    }
}

} // verus!
