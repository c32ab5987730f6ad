//! Spheres, intersected by the quadratic in the ray parameter.

use vstd::prelude::*;
use crate::{Ray, Hit, Intersect, ray_at};
use crate::fixed::{sat, mulfx, divfx, sqrtfx};
use crate::fixed::{sub_fx, mul_sat, mul_fx, div_fx, add_fx, sqrt_fx};
use crate::material::Material;
use crate::vec3::{Vec3, vsub, vdot, vnormalize};

verus! {

broadcast use crate::fixed::lemma_mulfx_range, crate::fixed::lemma_sqrtfx_range;

/// A sphere: center, radius and surface material.
#[derive(Clone, Copy, Debug)]
pub struct Sphere {
    pub origin: Vec3,
    pub radius: i128,
    pub material: Material,
}

/// The accepted root of the sphere quadratic `|pc + t*d|^2 = c2` (with
/// `c2` the squared radius, already fixed-point): the numerically smaller
/// of the two roots, or `None` on a negative discriminant (miss) or a
/// negative root (hit behind the ray origin). The ellipsoid solves this
/// same quadratic in its local unit-sphere space.
pub open spec fn quad_t(pc: Vec3, d: Vec3, c2: int) -> Option<int> {
    let a = sat(vdot(d, d));
    let b = sat(2 * sat(vdot(d, pc)));
    let c = sat(sat(vdot(pc, pc)) - c2);
    let disc = sat(mulfx(b, b) - mulfx(sat(4 * a), c));
    if disc < 0 {
        None
    } else {
        let sq = sqrtfx(disc);
        let den = sat(2 * a);
        let nb = sat(-b);
        let tp = sat(divfx(sat(nb + sq), den));
        let tm = sat(divfx(sat(nb - sq), den));
        let t = if tp < tm {
            tp
        } else {
            tm
        };
        if t < 0 {
            None
        } else {
            Some(t)
        }
    }
}

/// The nearest valid sphere intersection: solve
/// `|ray.at(t) - origin|^2 = radius^2` for `t`, keep the smaller root,
/// reject a negative discriminant (miss) or a negative root (behind the
/// ray origin).
#[verifier::opaque]
pub open spec fn sphere_hit(s: Sphere, ray: Ray) -> Option<Hit> {
    match quad_t(
        vsub(ray.origin, s.origin),
        ray.direction,
        mulfx(s.radius as int, s.radius as int),
    ) {
        None => None,
        Some(t) => {
            let position = ray_at(ray, t);
            let normal = vnormalize(vsub(position, s.origin));
            Some(Hit { distance: t as i128, position, normal, material: s.material })
        },
    }
}

impl Intersect for Sphere {
    open spec fn hit_spec(&self, ray: &Ray) -> Option<Hit> {
        sphere_hit(*self, *ray)
    }

    fn intersect(&self, ray: &Ray) -> (res: Option<Hit>) {
        proof {
            reveal(sphere_hit);
        }
        let pc: Vec3 = ray.origin.minus(self.origin);
        let a: i128 = ray.direction.dot(ray.direction);
        let b: i128 = mul_sat(2, ray.direction.dot(pc));
        let c: i128 = sub_fx(pc.dot(pc), mul_fx(self.radius, self.radius));
        let disc: i128 = sub_fx(mul_fx(b, b), mul_fx(mul_sat(4, a), c));
        if disc < 0 {
            return None;
        }
        let sq: i128 = sqrt_fx(disc);
        let den: i128 = mul_sat(2, a);
        let nb: i128 = sub_fx(0, b);
        let tp: i128 = div_fx(add_fx(nb, sq), den);
        let tm: i128 = div_fx(sub_fx(nb, sq), den);
        let t: i128 = if tp < tm {
            tp
        } else {
            tm
        };
        if t < 0 {
            return None;
        }
        let position: Vec3 = ray.at(t);
        let normal: Vec3 = position.minus(self.origin).normalize();
        Some(Hit { distance: t, position, normal, material: self.material })
    }
}

/// A sphere hit always lies at a nonnegative distance along the ray.
pub proof fn lemma_sphere_hit_nonneg(s: Sphere, ray: Ray)
    ensures
        sphere_hit(s, ray) matches Some(h) ==> h.distance >= 0,
{
    reveal(sphere_hit);
}

} // verus!
