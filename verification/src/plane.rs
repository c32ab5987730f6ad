//! Infinite planes, intersected by one division.

use vstd::prelude::*;
use crate::{Ray, Hit, Intersect, ray_at};
use crate::fixed::{sat, divfx};
use crate::fixed::div_fx;
use crate::material::Material;
use crate::vec3::{Vec3, vsub, vdot};

verus! {

/// An infinite plane through `origin` with the given (unit) `normal`.
#[derive(Clone, Copy, Debug)]
pub struct Plane {
    pub origin: Vec3,
    pub normal: Vec3,
    pub material: Material,
}

/// The plane intersection: distance along the ray is
/// `dot(normal, origin - ray.origin) / dot(normal, ray.direction)`.
/// A ray parallel to the plane (zero denominator) yields no hit, and so
/// does a negative distance (plane behind the ray origin).
#[verifier::opaque]
pub open spec fn plane_hit(p: Plane, ray: Ray) -> Option<Hit> {
    let den = sat(vdot(p.normal, ray.direction));
    if den == 0 {
        None
    } else {
        let num = sat(vdot(p.normal, vsub(p.origin, ray.origin)));
        let t = sat(divfx(num, den));
        if t < 0 {
            None
        } else {
            Some(
                Hit {
                    distance: t as i128,
                    position: ray_at(ray, t),
                    normal: p.normal,
                    material: p.material,
                },
            )
        }
    }
}

impl Intersect for Plane {
    open spec fn hit_spec(&self, ray: &Ray) -> Option<Hit> {
        plane_hit(*self, *ray)
    }

    fn intersect(&self, ray: &Ray) -> (res: Option<Hit>) {
        proof {
            reveal(plane_hit);
        }
        let den: i128 = self.normal.dot(ray.direction);
        if den == 0 {
            return None;
        }
        let num: i128 = self.normal.dot(self.origin.minus(ray.origin));
        let t: i128 = div_fx(num, den);
        if t < 0 {
            return None;
        }
        let position: Vec3 = ray.at(t);
        Some(Hit { distance: t, position, normal: self.normal, material: self.material })
    }
}

/// A ray parallel to the plane never produces a hit.
pub proof fn lemma_plane_parallel_misses(p: Plane, ray: Ray)
    requires
        vdot(p.normal, ray.direction) == 0,
    ensures
        plane_hit(p, ray) is None,
{
    reveal(plane_hit);
}

/// A plane hit always lies at a nonnegative distance along the ray.
pub proof fn lemma_plane_hit_nonneg(p: Plane, ray: Ray)
    ensures
        plane_hit(p, ray) matches Some(h) ==> h.distance >= 0,
{
    reveal(plane_hit);
}

} // verus!
