//! Ellipsoids: an affine image of the canonical unit sphere.
//!
//! The shape carries its world transform together with the inverse map that
//! its constructor was handed (computing the inverse is the builder's job;
//! the intersection only ever applies the two maps). The ray is pulled into
//! unit-sphere space, the sphere quadratic is solved there, and the hit is
//! pushed back out; the world distance is then re-derived from the world
//! position, with its sign taken from the ray direction.
//!
//! The surface normal is the local position mapped through the inverse
//! transform (not the inverse transpose) — exact only up to rotation and
//! uniform scale, and kept as a known limitation of the shading model.

use vstd::prelude::*;
use crate::{Ray, Hit, Intersect};
use crate::fixed::{SCALE, sat, mulfx, lemma_divt_multiples};
use crate::fixed::{sub_fx, mul_sat, mul_fx, div_fx, add_fx, sqrt_fx};
use crate::material::Material;
use crate::sphere::{Sphere, sphere_hit, quad_t};
use crate::transform::{Affine, apply_point, apply_vector};
use crate::transform::{affine_translation, coords_in_range, lemma_identity_apply};
use crate::vec3::{Vec3, vadd, vsub, vneg, vdot, vscale, vdist};

verus! {

broadcast use crate::fixed::lemma_mulfx_range, crate::fixed::lemma_sqrtfx_range;

/// An ellipsoid: the unit sphere seen through `transform`, whose inverse is
/// carried alongside.
#[derive(Clone, Copy, Debug)]
pub struct Ellipsoid {
    pub transform: Affine,
    pub inverse: Affine,
    pub material: Material,
}

/// The nearest valid ellipsoid intersection (see the module description).
#[verifier::opaque]
pub open spec fn ellipsoid_hit(e: Ellipsoid, ray: Ray) -> Option<Hit> {
    let lo = apply_point(e.inverse, ray.origin);
    let ld = apply_vector(e.inverse, ray.direction);
    match crate::sphere::quad_t(lo, ld, SCALE as int) {
        None => None,
        Some(t) => {
            let lpos = vadd(lo, vscale(ld, t));
            let wpos = apply_point(e.transform, lpos);
            let wnorm = apply_vector(e.inverse, lpos);
            let d0 = sat(vdist(ray.origin, wpos));
            let flip = sat(vdot(ray.direction, vsub(wpos, ray.origin))) < 0;
            let dist = if flip {
                sat(-d0)
            } else {
                d0
            };
            if dist < 0 {
                None
            } else {
                Some(
                    Hit {
                        distance: dist as i128,
                        position: wpos,
                        normal: wnorm,
                        material: e.material,
                    },
                )
            }
        },
    }
}

impl Ellipsoid {
    /// Build an ellipsoid from a world transform, the matching inverse map
    /// and a material.
    pub fn new(transform: Affine, inverse: Affine, material: Material) -> (r: Ellipsoid)
        ensures
            r == (Ellipsoid { transform, inverse, material }),
    {
        Ellipsoid { transform, inverse, material }
    }
}

impl Intersect for Ellipsoid {
    open spec fn hit_spec(&self, ray: &Ray) -> Option<Hit> {
        ellipsoid_hit(*self, *ray)
    }

    fn intersect(&self, ray: &Ray) -> (res: Option<Hit>) {
        proof {
            reveal(ellipsoid_hit);
        }
        let lo: Vec3 = self.inverse.transform_point(ray.origin);
        let ld: Vec3 = self.inverse.transform_vector(ray.direction);
        let a: i128 = ld.dot(ld);
        let b: i128 = mul_sat(2, ld.dot(lo));
        let c: i128 = sub_fx(lo.dot(lo), SCALE);
        let disc: i128 = sub_fx(mul_fx(b, b), mul_fx(mul_sat(4, a), c));
        if disc < 0 {
            return None;
        }
        let sq: i128 = sqrt_fx(disc);
        let den: i128 = mul_sat(2, a);
        let nb: i128 = sub_fx(0, b);
        let tp: i128 = div_fx(add_fx(nb, sq), den);
        let tm: i128 = div_fx(sub_fx(nb, sq), den);
        let t: i128 = if tp < tm {
            tp
        } else {
            tm
        };
        if t < 0 {
            return None;
        }
        let lpos: Vec3 = lo.plus(ld.scale(t));
        let wpos: Vec3 = self.transform.transform_point(lpos);
        let wnorm: Vec3 = self.inverse.transform_vector(lpos);
        let d0: i128 = ray.origin.distance(wpos);
        let dist: i128 = if ray.direction.dot(wpos.minus(ray.origin)) < 0 {
            sub_fx(0, d0)
        } else {
            d0
        };
        if dist < 0 {
            return None;
        }
        Some(Hit { distance: dist, position: wpos, normal: wnorm, material: self.material })
    }
}

/// An ellipsoid whose transform is a pure translation is the unit sphere
/// centered at that translation: both pull the ray into one and the same
/// quadratic, so they accept or reject the same parametric root — in
/// particular, whenever the unit sphere reports no hit, the translated
/// ellipsoid reports none either. (The reported distances may differ in
/// the last place: the ellipsoid re-derives its distance from the world
/// position.)
pub proof fn lemma_translated_unit_sphere(c: Vec3, m: Material, ray: Ray)
    requires
        coords_in_range(ray.origin),
        coords_in_range(ray.direction),
        c.x != i128::MIN,
        c.y != i128::MIN,
        c.z != i128::MIN,
    ensures
        ({
            let s = Sphere { origin: c, radius: SCALE, material: m };
            let e = Ellipsoid {
                transform: affine_translation(c),
                inverse: affine_translation(vneg(c)),
                material: m,
            };
            &&& apply_point(e.inverse, ray.origin) == vsub(ray.origin, c)
            &&& apply_vector(e.inverse, ray.direction) == ray.direction
            &&& quad_t(
                vsub(ray.origin, c),
                ray.direction,
                mulfx(SCALE as int, SCALE as int),
            ) == quad_t(
                apply_point(e.inverse, ray.origin),
                apply_vector(e.inverse, ray.direction),
                SCALE as int,
            )
            &&& (sphere_hit(s, ray) is None ==> ellipsoid_hit(e, ray) is None)
        }),
{
    reveal(crate::sphere::sphere_hit);
    reveal(ellipsoid_hit);
    lemma_identity_apply(ray.origin);
    lemma_identity_apply(ray.direction);
    lemma_divt_multiples(SCALE as int, SCALE as int);
    assert(mulfx(SCALE as int, SCALE as int) == SCALE as int);
    let e = Ellipsoid {
        transform: affine_translation(c),
        inverse: affine_translation(vneg(c)),
        material: m,
    };
    assert(apply_point(e.inverse, ray.origin) == vsub(ray.origin, c));
}

} // verus!
