//! The camera: maps normalized image-plane coordinates to world rays.
//!
//! The viewport sits one unit in front of the camera along local `-z`;
//! its half-height is the tangent of half the vertical field of view.
//! That tangent is data here (`half_height`), handed in by whatever builds
//! the camera — the trigonometry itself lives outside the core. The local
//! sample direction is rotated into world space with a right-handed
//! look-at basis built from the view direction and world-up `(0,1,0)`
//! (degenerate when the view direction is parallel to world-up; such a
//! camera is outside the model, as in the shading rules).

use vstd::prelude::*;
use crate::Ray;
use crate::fixed::{SCALE, sat, sati, divt};
use crate::fixed::{add_fx, sub_fx, mul_fx, div_t};
use crate::vec3::{Vec3, vadd, vsub, vdot, vcross, vscale, vnormalize};

verus! {

broadcast use crate::fixed::lemma_mulfx_range, crate::fixed::lemma_sqrtfx_range;

/// A camera: position, view direction, the tangent of half the vertical
/// field of view, and the width/height aspect ratio.
#[derive(Clone, Copy, Debug)]
pub struct Camera {
    pub origin: Vec3,
    pub direction: Vec3,
    pub half_height: i128,
    pub aspect: i128,
}

/// The world ray through normalized image coordinates `(u, v)`, `v`
/// measured from the bottom of the image plane. The returned direction is
/// not normalized.
pub open spec fn camera_ray(c: Camera, u: int, v: int) -> Ray {
    let vh = sat(2 * c.half_height);
    let vw = crate::fixed::mulfx(c.aspect as int, vh);
    let horizontal = Vec3 { x: sati(vw), y: 0, z: 0 };
    let vertical = Vec3 { x: 0, y: sati(vh), z: 0 };
    let lower_left = vsub(
        vsub(Vec3 { x: 0, y: 0, z: sati(-(SCALE as int)) }, Vec3 { x: sati(divt(vw, 2)), y: 0, z: 0 }),
        Vec3 { x: 0, y: sati(divt(vh, 2)), z: 0 },
    );
    let dl = vadd(vadd(lower_left, vscale(horizontal, u)), vscale(vertical, v));
    let f = vnormalize(c.direction);
    let s = vnormalize(vcross(f, Vec3 { x: 0, y: SCALE, z: 0 }));
    let up = vcross(s, f);
    let world = Vec3 {
        x: sati(vdot(s, dl)),
        y: sati(vdot(up, dl)),
        z: sati(-sat(vdot(f, dl))),
    };
    Ray { origin: c.origin, direction: world }
}

impl Camera {
    /// The world ray through normalized image coordinates `(u, v)`.
    pub fn get_ray(&self, u: i128, v: i128) -> (r: Ray)
        ensures
            r == camera_ray(*self, u as int, v as int),
    {
        let vh: i128 = add_fx(self.half_height, self.half_height);
        let vw: i128 = mul_fx(self.aspect, vh);
        let horizontal: Vec3 = Vec3 { x: vw, y: 0, z: 0 };
        let vertical: Vec3 = Vec3 { x: 0, y: vh, z: 0 };
        let lower_left: Vec3 = Vec3 { x: 0, y: 0, z: -SCALE }.minus(
            Vec3 { x: div_t(vw, 2), y: 0, z: 0 },
        ).minus(Vec3 { x: 0, y: div_t(vh, 2), z: 0 });
        let dl: Vec3 = lower_left.plus(horizontal.scale(u)).plus(vertical.scale(v));
        let f: Vec3 = self.direction.normalize();
        let s: Vec3 = f.cross(Vec3 { x: 0, y: SCALE, z: 0 }).normalize();
        let up: Vec3 = s.cross(f);
        let world: Vec3 = Vec3 { x: s.dot(dl), y: up.dot(dl), z: sub_fx(0, f.dot(dl)) };
        Ray { origin: self.origin, direction: world }
    }
}

} // verus!
