//! Triangle meshes: a flat soup of vertex triples, intersected one triangle
//! at a time in the mesh's local space.
//!
//! The ray is pulled into local space (direction normalized so the
//! parametric distance is meaningful), every triangle is tested with the
//! two-sided Moller-Trumbore bounds, and the smallest valid parametric hit
//! wins (the first such triangle on a tie). The winning local hit is pushed
//! back to world space: position through the transform, normal through the
//! transpose of the inverse (exact under non-uniform scale, unlike the
//! ellipsoid's normals), and the world distance re-derived from the world
//! position with its sign taken from the ray direction.

use vstd::prelude::*;
use crate::{Ray, Hit, Intersect};
use crate::fixed::{SCALE, sat, sati, divfx};
use crate::fixed::{sub_fx, div_fx, add_fx};
use crate::material::Material;
use crate::transform::{Affine, apply_point, apply_vector, mat_apply, mat_transpose};
use crate::vec3::{Vec3, vadd, vsub, vdot, vcross, vscale, vdist, vnormalize};

verus! {

broadcast use crate::fixed::lemma_mulfx_range, crate::fixed::lemma_sqrtfx_range;

/// A triangle soup: every three consecutive vertices form one triangle.
/// `normals` either parallels `vertices` (per-vertex normals, interpolated)
/// or is empty (flat face normals). The world transform is carried with the
/// inverse map the constructor was handed.
#[derive(Clone, Debug)]
pub struct Mesh {
    pub vertices: Vec<Vec3>,
    pub normals: Vec<Vec3>,
    pub transform: Affine,
    pub inverse: Affine,
    pub material: Material,
}

/// A raw per-triangle hit: barycentric parameters and parametric distance.
#[derive(Clone, Copy, Debug, PartialEq, Eq, Structural)]
pub struct TriangleHit {
    pub u: i128,
    pub v: i128,
    pub t: i128,
}

/// Two-sided Moller-Trumbore: the barycentric bounds are checked against
/// the raw determinant (sign-specific, so both windings hit), and only a
/// nonnegative parametric distance counts. A zero determinant is a ray
/// parallel to the triangle's plane: no hit.
pub open spec fn triangle_hit(ro: Vec3, rd: Vec3, v0: Vec3, v1: Vec3, v2: Vec3) -> Option<
    TriangleHit,
> {
    let e1 = vsub(v1, v0);
    let e2 = vsub(v2, v0);
    let pvec = vcross(rd, e2);
    let det = sat(vdot(e1, pvec));
    let tvec = vsub(ro, v0);
    let qvec = vcross(tvec, e1);
    if det == 0 {
        None
    } else {
        let u = sat(vdot(tvec, pvec));
        let v = sat(vdot(rd, qvec));
        let inside = if det > 0 {
            0 <= u && u <= det && 0 <= v && sat(u + v) <= det
        } else {
            u <= 0 && det <= u && v <= 0 && det <= sat(u + v)
        };
        if !inside {
            None
        } else {
            let t = sat(divfx(sat(vdot(e2, qvec)), det));
            if t < 0 {
                None
            } else {
                Some(
                    TriangleHit {
                        u: sati(divfx(u, det)),
                        v: sati(divfx(v, det)),
                        t: t as i128,
                    },
                )
            }
        }
    }
}

/// The local-space hit candidate of triangle `i` (vertices `3i .. 3i+2`):
/// barycentric interpolation of position, and of the per-vertex normals
/// when present, else the flat face normal.
pub open spec fn tri_candidate(m: Mesh, lo: Vec3, ld: Vec3, i: int) -> Option<Hit> {
    let v0 = m.vertices@[3 * i];
    let v1 = m.vertices@[3 * i + 1];
    let v2 = m.vertices@[3 * i + 2];
    match triangle_hit(lo, ld, v0, v1, v2) {
        None => None,
        Some(th) => {
            let w = sat(sat(SCALE as int - th.u) - th.v);
            let position = vadd(
                vadd(vscale(v1, th.u as int), vscale(v2, th.v as int)),
                vscale(v0, w),
            );
            let n_raw = if m.normals@.len() == m.vertices@.len() {
                vadd(
                    vadd(
                        vscale(m.normals@[3 * i + 1], th.u as int),
                        vscale(m.normals@[3 * i + 2], th.v as int),
                    ),
                    vscale(m.normals@[3 * i], w),
                )
            } else {
                vcross(vsub(v1, v0), vsub(v2, v0))
            };
            Some(
                Hit {
                    distance: th.t,
                    position,
                    normal: vnormalize(n_raw),
                    material: m.material,
                },
            )
        },
    }
}

/// The minimum-distance candidate among the first `k` triangles; the first
/// such triangle wins a tie.
pub open spec fn best_local_hit(m: Mesh, lo: Vec3, ld: Vec3, k: int) -> Option<Hit>
    decreases k,
{
    if k <= 0 {
        None
    } else {
        let prev = best_local_hit(m, lo, ld, k - 1);
        match tri_candidate(m, lo, ld, k - 1) {
            None => prev,
            Some(h) => match prev {
                None => Some(h),
                Some(p) => if h.distance < p.distance {
                    Some(h)
                } else {
                    Some(p)
                },
            },
        }
    }
}

/// The nearest valid mesh intersection (see the module description).
#[verifier::opaque]
pub open spec fn mesh_hit(m: Mesh, ray: Ray) -> Option<Hit> {
    let lo = apply_point(m.inverse, ray.origin);
    let ld = vnormalize(apply_vector(m.inverse, ray.direction));
    match best_local_hit(m, lo, ld, m.vertices@.len() as int / 3) {
        None => None,
        Some(h) => {
            let wpos = apply_point(m.transform, h.position);
            let wnorm = vnormalize(mat_apply(mat_transpose(m.inverse.linear), h.normal));
            let d0 = sat(vdist(ray.origin, wpos));
            let flip = sat(vdot(ray.direction, vsub(wpos, ray.origin))) < 0;
            let dist = if flip {
                sat(-d0)
            } else {
                d0
            };
            if dist < 0 {
                None
            } else {
                Some(
                    Hit {
                        distance: dist as i128,
                        position: wpos,
                        normal: wnorm,
                        material: m.material,
                    },
                )
            }
        },
    }
}

impl Mesh {
    /// Build a mesh from already-triangulated data, a world transform and
    /// the matching inverse map.
    pub fn new(
        vertices: Vec<Vec3>,
        normals: Vec<Vec3>,
        transform: Affine,
        inverse: Affine,
        material: Material,
    ) -> (r: Mesh)
        ensures
            r == (Mesh { vertices, normals, transform, inverse, material }),
    {
        Mesh { vertices, normals, transform, inverse, material }
    }

    /// One triangle tested in local space.
    pub fn intersect_triangle(
        &self,
        ray_origin: Vec3,
        ray_direction: Vec3,
        vert0: Vec3,
        vert1: Vec3,
        vert2: Vec3,
    ) -> (res: Option<TriangleHit>)
        ensures
            res == triangle_hit(ray_origin, ray_direction, vert0, vert1, vert2),
    {
        let edge1: Vec3 = vert1.minus(vert0);
        let edge2: Vec3 = vert2.minus(vert0);
        let pvec: Vec3 = ray_direction.cross(edge2);
        let det: i128 = edge1.dot(pvec);
        let tvec: Vec3 = ray_origin.minus(vert0);
        let qvec: Vec3 = tvec.cross(edge1);
        if det == 0 {
            return None;
        }
        let u: i128 = tvec.dot(pvec);
        let v: i128 = ray_direction.dot(qvec);
        if det > 0 {
            if u < 0 || u > det {
                return None;
            }
            if v < 0 || add_fx(u, v) > det {
                return None;
            }
        } else {
            if u > 0 || u < det {
                return None;
            }
            if v > 0 || add_fx(u, v) < det {
                return None;
            }
        }
        let t: i128 = div_fx(edge2.dot(qvec), det);
        if t < 0 {
            return None;
        }
        Some(TriangleHit { u: div_fx(u, det), v: div_fx(v, det), t })
    }
}

impl Intersect for Mesh {
    open spec fn hit_spec(&self, ray: &Ray) -> Option<Hit> {
        mesh_hit(*self, *ray)
    }

    #[verifier::rlimit(100)]
    fn intersect(&self, ray: &Ray) -> (res: Option<Hit>) {
        proof {
            reveal(mesh_hit);
        }
        let lo: Vec3 = self.inverse.transform_point(ray.origin);
        let ld: Vec3 = self.inverse.transform_vector(ray.direction).normalize();
        let n_tri: usize = self.vertices.len() / 3;
        proof {
            assert(3 * (self.vertices@.len() as int / 3) <= self.vertices@.len() as int) by (nonlinear_arith);
        }
        let mut best: Option<Hit> = None;
        let mut i: usize = 0;
        while i < n_tri
            invariant
                i <= n_tri,
                n_tri == self.vertices@.len() as int / 3,
                3 * (n_tri as int) <= self.vertices@.len(),
                self.vertices@.len() <= usize::MAX,
                lo == apply_point(self.inverse, ray.origin),
                ld == vnormalize(apply_vector(self.inverse, ray.direction)),
                best == best_local_hit(*self, lo, ld, i as int),
            decreases n_tri - i,
        {
            proof {
                assert(3 * (i as int) + 2 < 3 * (n_tri as int)) by (nonlinear_arith)
                    requires
                        (i as int) < n_tri as int,
                ;
            }
            let v0: Vec3 = self.vertices[3 * i];
            let v1: Vec3 = self.vertices[3 * i + 1];
            let v2: Vec3 = self.vertices[3 * i + 2];
            match self.intersect_triangle(lo, ld, v0, v1, v2) {
                None => {
                    proof {
                        assert(tri_candidate(*self, lo, ld, i as int) is None);
                        assert(best_local_hit(*self, lo, ld, i as int + 1) == best);
                    }
                },
                Some(th) => {
                    let w: i128 = sub_fx(sub_fx(SCALE, th.u), th.v);
                    let position: Vec3 = v1.scale(th.u).plus(v2.scale(th.v)).plus(v0.scale(w));
                    let n_raw: Vec3 = if self.normals.len() == self.vertices.len() {
                        self.normals[3 * i + 1].scale(th.u).plus(
                            self.normals[3 * i + 2].scale(th.v),
                        ).plus(self.normals[3 * i].scale(w))
                    } else {
                        v1.minus(v0).cross(v2.minus(v0))
                    };
                    let cand: Hit = Hit {
                        distance: th.t,
                        position,
                        normal: n_raw.normalize(),
                        material: self.material,
                    };
                    proof {
                        assert(tri_candidate(*self, lo, ld, i as int) == Some(cand));
                    }
                    match best {
                        None => {
                            best = Some(cand);
                        },
                        Some(p) => {
                            if cand.distance < p.distance {
                                best = Some(cand);
                            }
                        },
                    }
                },
            }
            i = i + 1;
        }
        match best {
            None => None,
            Some(h) => {
                let wpos: Vec3 = self.transform.transform_point(h.position);
                let wnorm: Vec3 = self.inverse.linear.transpose().apply(h.normal).normalize();
                let d0: i128 = ray.origin.distance(wpos);
                let dist: i128 = if ray.direction.dot(wpos.minus(ray.origin)) < 0 {
                    sub_fx(0, d0)
                } else {
                    d0
                };
                if dist < 0 {
                    return None;
                }
                Some(Hit { distance: dist, position: wpos, normal: wnorm, material: self.material })
            },
        }
    }
}

} // verus!
