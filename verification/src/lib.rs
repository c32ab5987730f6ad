//! A recursive ray tracer over fixed-point coordinates.
//!
//! Geometry (sphere, plane, ellipsoid, triangle mesh), nearest-hit scene
//! queries, camera ray generation and the recursive shading algorithm are
//! all verified: every executable routine returns exactly the value of its
//! spec-level mirror, and the stated laws (parallel rays miss planes, the
//! scene query returns the nearest hit, reflection terminates) are proved
//! from those mirrors.

use vstd::prelude::*;

pub mod camera;
pub mod ellipsoid;
pub mod fixed;
pub mod light;
pub mod material;
pub mod mesh;
pub mod plane;
pub mod sphere;
pub mod transform;
pub mod vec3;

pub use camera::Camera;
pub use ellipsoid::Ellipsoid;
pub use mesh::Mesh;
pub use light::Light;
pub use material::Material;
pub use plane::Plane;
pub use sphere::Sphere;
pub use transform::Affine;
pub use transform::Mat3;
pub use vec3::Vec3;

use crate::vec3::{vadd, vsub, vscale, vdot, vnormalize, vdist, velem, vdiv_count};
use crate::fixed::{SCALE, sat, sati, mulfx, divfx, powfx, max0};
use crate::fixed::{add_fx, mul_fx, div_fx, pow_fx};
use crate::light::attenuation_of;
use crate::material::Material as Mat;

verus! {

broadcast use crate::fixed::lemma_mulfx_range, crate::fixed::lemma_sqrtfx_range, crate::fixed::lemma_powfx_range;

/// A ray: starting point and (not necessarily unit) direction.
#[derive(Clone, Copy, Debug, PartialEq, Eq, Structural)]
pub struct Ray {
    pub origin: Vec3,
    pub direction: Vec3,
}

/// The point a parametric distance `t` along the ray.
pub open spec fn ray_at(ray: Ray, t: int) -> Vec3 {
    vadd(ray.origin, vscale(ray.direction, t))
}

impl Ray {
    /// The point a parametric distance `t` along the ray.
    pub fn at(&self, t: i128) -> (r: Vec3)
        ensures
            r == ray_at(*self, t as int),
    {
        self.origin.plus(self.direction.scale(t))
    }
}

/// Where and how a ray struck a surface. Only hits with a nonnegative
/// distance are ever returned by an intersection query.
#[derive(Clone, Copy, Debug)]
pub struct Hit {
    pub distance: i128,
    pub position: Vec3,
    pub normal: Vec3,
    pub material: Mat,
}

impl PartialEq for Hit {
    /// Hits compare by distance alone.
    fn eq(&self, other: &Hit) -> (r: bool) {
        self.distance == other.distance
    }
}

impl vstd::std_specs::cmp::PartialEqSpecImpl for Hit {
    open spec fn obeys_eq_spec() -> bool {
        true
    }

    open spec fn eq_spec(&self, other: &Hit) -> bool {
        self.distance == other.distance
    }
}

impl PartialOrd for Hit {
    /// Hits are totally ordered by distance; equal distances tie.
    fn partial_cmp(&self, other: &Hit) -> (r: Option<core::cmp::Ordering>) {
        if self.distance < other.distance {
            Some(core::cmp::Ordering::Less)
        } else if self.distance > other.distance {
            Some(core::cmp::Ordering::Greater)
        } else {
            Some(core::cmp::Ordering::Equal)
        }
    }
}

impl vstd::std_specs::cmp::PartialOrdSpecImpl for Hit {
    open spec fn obeys_partial_cmp_spec() -> bool {
        true
    }

    open spec fn partial_cmp_spec(&self, other: &Hit) -> Option<core::cmp::Ordering> {
        if self.distance < other.distance {
            Some(core::cmp::Ordering::Less)
        } else if self.distance > other.distance {
            Some(core::cmp::Ordering::Greater)
        } else {
            Some(core::cmp::Ordering::Equal)
        }
    }
}

/// One scene primitive, a closed set of shapes.
#[derive(Clone, Debug)]
pub enum Object {
    Plane(crate::plane::Plane),
    Sphere(crate::sphere::Sphere),
    Ellipsoid(crate::ellipsoid::Ellipsoid),
    Mesh(crate::mesh::Mesh),
}

/// The whole scene geometry, scanned linearly on every query.
pub type Objects = Vec<Object>;

/// A full scene: one camera, any number of lights, the geometry.
#[derive(Clone, Debug)]
pub struct Scene {
    pub camera: crate::camera::Camera,
    pub lights: Vec<Light>,
    pub objects: Objects,
}

/// Shapes a ray can strike. `hit_spec` is the mathematical value of the
/// query; `intersect` computes exactly it.
pub trait Intersect {
    /// The nearest valid intersection, as a spec-level value.
    spec fn hit_spec(&self, ray: &Ray) -> Option<Hit>;

    /// The nearest valid intersection of `ray` with this shape, or `None`
    /// when the ray misses it (or only strikes it behind its origin).
    fn intersect(&self, ray: &Ray) -> (res: Option<Hit>)
        ensures
            res == self.hit_spec(ray),
    ;
}

/// The intersection query of one primitive, dispatched on its shape.
pub open spec fn object_hit(o: Object, ray: Ray) -> Option<Hit> {
    match o {
        Object::Plane(p) => crate::plane::plane_hit(p, ray),
        Object::Sphere(s) => crate::sphere::sphere_hit(s, ray),
        Object::Ellipsoid(e) => crate::ellipsoid::ellipsoid_hit(e, ray),
        Object::Mesh(m) => crate::mesh::mesh_hit(m, ray),
    }
}

impl Intersect for Object {
    open spec fn hit_spec(&self, ray: &Ray) -> Option<Hit> {
        object_hit(*self, *ray)
    }

    fn intersect(&self, ray: &Ray) -> (res: Option<Hit>) {
        match self {
            Object::Plane(o) => o.intersect(ray),
            Object::Sphere(o) => o.intersect(ray),
            Object::Ellipsoid(o) => o.intersect(ray),
            Object::Mesh(o) => o.intersect(ray),
        }
    }
}

/// The minimum-distance hit among the first `k` objects; the first such
/// object wins a tie.
pub open spec fn scene_best(objs: Seq<Object>, ray: Ray, k: int) -> Option<Hit>
    decreases k,
{
    if k <= 0 {
        None
    } else {
        let prev = scene_best(objs, ray, k - 1);
        match object_hit(objs[k - 1], ray) {
            None => prev,
            Some(h) => match prev {
                None => Some(h),
                Some(p) => if h.distance < p.distance {
                    Some(h)
                } else {
                    Some(p)
                },
            },
        }
    }
}

/// The nearest hit over the whole collection.
pub open spec fn scene_hit(objs: Seq<Object>, ray: Ray) -> Option<Hit> {
    scene_best(objs, ray, objs.len() as int)
}

impl Intersect for Vec<Object> {
    open spec fn hit_spec(&self, ray: &Ray) -> Option<Hit> {
        scene_hit(self@, *ray)
    }

    fn intersect(&self, ray: &Ray) -> (res: Option<Hit>) {
        let mut best: Option<Hit> = None;
        let mut i: usize = 0;
        let n: usize = self.len();
        while i < n
            invariant
                i <= n,
                n == self@.len(),
                best == scene_best(self@, *ray, i as int),
            decreases n - i,
        {
            match self[i].intersect(ray) {
                None => {},
                Some(h) => {
                    match best {
                        None => {
                            best = Some(h);
                        },
                        Some(p) => {
                            if h.distance < p.distance {
                                best = Some(h);
                            }
                        },
                    }
                },
            }
            i = i + 1;
        }
        best
    }
}

/// `scene_best` is the nearest-hit fold: over the first `k` objects it is
/// `None` exactly when each misses, and otherwise one of their hits, no
/// farther than any of them.
proof fn lemma_scene_best_nearest(objs: Seq<Object>, ray: Ray, k: int)
    requires
        0 <= k <= objs.len(),
    ensures
        scene_best(objs, ray, k) is None ==> forall|i: int|
            0 <= i < k ==> #[trigger] object_hit(objs[i], ray) is None,
        scene_best(objs, ray, k) matches Some(h) ==> {
            &&& exists|i: int| 0 <= i < k && object_hit(objs[i], ray) == Some(h)
            &&& forall|i: int|
                0 <= i < k ==> match #[trigger] object_hit(objs[i], ray) {
                    Some(g) => h.distance <= g.distance,
                    None => true,
                }
        },
    decreases k,
{
    if k > 0 {
        lemma_scene_best_nearest(objs, ray, k - 1);
        match scene_best(objs, ray, k) {
            None => {},
            Some(h) => {
                match object_hit(objs[k - 1], ray) {
                    None => {
                        assert(object_hit(objs[k - 1], ray) is None);
                    },
                    Some(c) => {
                        match scene_best(objs, ray, k - 1) {
                            None => {
                                assert(object_hit(objs[k - 1], ray) == Some(h));
                            },
                            Some(p) => {
                                if c.distance < p.distance {
                                    assert(object_hit(objs[k - 1], ray) == Some(h));
                                } else {
                                    assert(exists|i: int|
                                        0 <= i < k - 1 && object_hit(objs[i], ray) == Some(h));
                                }
                            },
                        }
                    },
                }
            },
        }
    }
}

/// Nearest-hit law: the scene query agrees with the minimum-distance hit
/// among the per-object queries — `None` exactly when every object misses,
/// and otherwise one of the per-object hits, no farther than any other.
pub proof fn lemma_scene_hit_nearest(objs: Seq<Object>, ray: Ray)
    ensures
        scene_hit(objs, ray) is None ==> forall|i: int|
            0 <= i < objs.len() ==> #[trigger] object_hit(objs[i], ray) is None,
        scene_hit(objs, ray) matches Some(h) ==> {
            &&& exists|i: int| 0 <= i < objs.len() && object_hit(objs[i], ray) == Some(h)
            &&& forall|i: int|
                0 <= i < objs.len() ==> match #[trigger] object_hit(objs[i], ray) {
                    Some(g) => h.distance <= g.distance,
                    None => true,
                }
        },
{
    lemma_scene_best_nearest(objs, ray, objs.len() as int);
}

/// Every hit a primitive reports lies at a nonnegative distance along the
/// ray: candidates behind the ray origin are filtered out, never exposed.
pub proof fn lemma_object_hit_nonneg(o: Object, ray: Ray)
    ensures
        object_hit(o, ray) matches Some(h) ==> h.distance >= 0,
{
    reveal(crate::plane::plane_hit);
    reveal(crate::sphere::sphere_hit);
    reveal(crate::ellipsoid::ellipsoid_hit);
    reveal(crate::mesh::mesh_hit);
}

/// Every hit the scene query reports lies at a nonnegative distance.
pub proof fn lemma_scene_hit_nonneg(objs: Seq<Object>, ray: Ray)
    ensures
        scene_hit(objs, ray) matches Some(h) ==> h.distance >= 0,
{
    lemma_scene_hit_nearest(objs, ray);
    match scene_hit(objs, ray) {
        None => {},
        Some(h) => {
            let i = choose|i: int| 0 <= i < objs.len() && object_hit(objs[i], ray) == Some(h);
            lemma_object_hit_nonneg(objs[i], ray);
        },
    }
}

/// How far a shadow or reflection ray's origin is pushed along its own
/// direction, so it does not immediately re-strike the surface it left
/// (about `1e-4` in fixed-point units).
pub const SHADOW_EPSILON: i128 = 7;

/// Mirror reflection of `i` about the surface normal `n`:
/// `i - n * dot(n, i) * 2`.
pub open spec fn reflect_spec(i: Vec3, n: Vec3) -> Vec3 {
    vsub(i, vscale(vscale(n, sat(vdot(n, i))), 2 * SCALE as int))
}

/// Mirror reflection of `i` about the surface normal `n`.
fn reflect(i: Vec3, n: Vec3) -> (r: Vec3)
    ensures
        r == reflect_spec(i, n),
{
    let d: i128 = n.dot(i);
    i.minus(n.scale(d).scale(2 * SCALE))
}

/// Whether the light lies behind the surface at the hit point.
pub open spec fn light_behind(normal: Vec3, hp: Vec3, light: Light) -> bool {
    sat(vdot(normal, vsub(light.position, hp))) < 0
}

/// Whether something opaque stands between the hit point and the light:
/// the epsilon-offset shadow ray strikes an object no farther away than
/// the light itself.
pub open spec fn light_occluded(objs: Seq<Object>, hp: Vec3, light: Light) -> bool {
    let sdir = vnormalize(vsub(light.position, hp));
    let sray = Ray {
        origin: ray_at(Ray { origin: hp, direction: sdir }, SHADOW_EPSILON as int),
        direction: sdir,
    };
    match scene_hit(objs, sray) {
        Some(sh) => sh.distance as int <= sat(vdist(light.position, hp)),
        None => false,
    }
}

/// Shadow query for one light (see `light_occluded`).
fn occluded(objects: &Objects, hp: Vec3, light: &Light) -> (r: bool)
    ensures
        r == light_occluded(objects@, hp, *light),
{
    let sdir: Vec3 = light.position.minus(hp).normalize();
    let base: Ray = Ray { origin: hp, direction: sdir };
    let sray: Ray = Ray { origin: base.at(SHADOW_EPSILON), direction: sdir };
    match objects.intersect(&sray) {
        Some(sh) => sh.distance <= light.position.distance(hp),
        None => false,
    }
}

/// The shadow-debug color summed over the first `k` lights: red for a
/// light behind the surface, green for an occluded one, blue for a lit
/// one.
pub open spec fn shadow_color_sum(objs: Seq<Object>, lights: Seq<Light>, hit: Hit, k: int) -> Vec3
    decreases k,
{
    if k <= 0 {
        Vec3 { x: 0, y: 0, z: 0 }
    } else {
        let prev = shadow_color_sum(objs, lights, hit, k - 1);
        let l = lights[k - 1];
        let c = if light_behind(hit.normal, hit.position, l) {
            Vec3 { x: SCALE, y: 0, z: 0 }
        } else if light_occluded(objs, hit.position, l) {
            Vec3 { x: 0, y: SCALE, z: 0 }
        } else {
            Vec3 { x: 0, y: 0, z: SCALE }
        };
        vadd(prev, c)
    }
}

/// One light's Blinn-Phong contribution at a hit: zero when the light is
/// behind the surface or occluded; otherwise the attenuated sum of the
/// diffuse and specular terms, scaled by the light's color and intensity.
pub open spec fn blinn_light_term(
    objs: Seq<Object>,
    camera: Camera,
    hit: Hit,
    l: Light,
    diffuse: Vec3,
    specular: Vec3,
    intensity: u32,
) -> Vec3 {
    if light_behind(hit.normal, hit.position, l) || light_occluded(objs, hit.position, l) {
        Vec3 { x: 0, y: 0, z: 0 }
    } else {
        let r = sat(vdist(l.position, hit.position));
        let p_nor = vnormalize(hit.normal);
        let p_eye = vnormalize(vsub(camera.origin, hit.position));
        let p_light = vnormalize(vsub(l.position, hit.position));
        let p_half = vnormalize(vadd(p_light, p_eye));
        let cd = vscale(diffuse, max0(sat(vdot(p_light, p_nor))));
        let cs = vscale(specular, powfx(max0(sat(vdot(p_half, p_nor))), intensity as nat));
        let att3 = attenuation_of(l);
        let den = sat(sat(att3.0 + mulfx(att3.1, r)) + mulfx(mulfx(att3.2, r), r));
        let att = sat(divfx(SCALE as int, den));
        vscale(velem(vscale(l.color, l.intensity as int), vadd(cd, cs)), att)
    }
}

/// The Blinn-Phong color accumulated over the first `k` lights, starting
/// from the ambient term.
pub open spec fn blinn_color(
    objs: Seq<Object>,
    camera: Camera,
    hit: Hit,
    lights: Seq<Light>,
    ambient: Vec3,
    diffuse: Vec3,
    specular: Vec3,
    intensity: u32,
    k: int,
) -> Vec3
    decreases k,
{
    if k <= 0 {
        ambient
    } else {
        vadd(
            blinn_color(objs, camera, hit, lights, ambient, diffuse, specular, intensity, k - 1),
            blinn_light_term(objs, camera, hit, lights[k - 1], diffuse, specular, intensity),
        )
    }
}

/// The color seen along a ray: find the nearest hit, dispatch on its
/// material; a mirror recurses on the reflected ray while bounces remain,
/// and `None` means "no coverage" (background), never black.
pub open spec fn shade_spec(
    objs: Seq<Object>,
    lights: Seq<Light>,
    camera: Camera,
    ray: Ray,
    bounces: nat,
) -> Option<Vec3>
    decreases bounces,
{
    match scene_hit(objs, ray) {
        None => None,
        Some(hit) => match hit.material {
            Mat::DebugPosition => Some(hit.position),
            Mat::DebugNormals => Some(hit.normal),
            Mat::DebugShadows => Some(
                vdiv_count(
                    shadow_color_sum(objs, lights, hit, lights.len() as int),
                    lights.len() as int,
                ),
            ),
            Mat::Emissive { color } => Some(color),
            Mat::Mirror => {
                if bounces == 0 {
                    None
                } else {
                    let rdir = reflect_spec(ray.direction, hit.normal);
                    let rorigin = ray_at(
                        Ray { origin: hit.position, direction: rdir },
                        SHADOW_EPSILON as int,
                    );
                    let rray = Ray { origin: rorigin, direction: rdir };
                    let rcam = Camera {
                        origin: rorigin,
                        direction: rdir,
                        half_height: camera.half_height,
                        aspect: camera.aspect,
                    };
                    shade_spec(objs, lights, rcam, rray, (bounces - 1) as nat)
                }
            },
            Mat::BlinnPhong { ambient, diffuse, specular, intensity } => Some(
                blinn_color(
                    objs,
                    camera,
                    hit,
                    lights,
                    ambient,
                    diffuse,
                    specular,
                    intensity,
                    lights.len() as int,
                ),
            ),
        },
    }
}

/// Recursion termination: when the nearest surface is a mirror and no
/// bounces remain, shading contributes nothing — whatever the scene, the
/// lights, the camera or the ray.
pub proof fn lemma_mirror_exhausted(objs: Seq<Object>, lights: Seq<Light>, camera: Camera, ray: Ray)
    ensures
        (scene_hit(objs, ray) matches Some(h) && h.material is Mirror) ==> shade_spec(
            objs,
            lights,
            camera,
            ray,
            0,
        ) is None,
{
}

/// Shadow occlusion: a light that is occluded at the hit point adds
/// nothing to the Blinn-Phong sum — its term is the zero color, and the
/// color accumulated through it equals the color accumulated without it.
pub proof fn lemma_occluded_light_adds_nothing(
    objs: Seq<Object>,
    camera: Camera,
    hit: Hit,
    lights: Seq<Light>,
    ambient: Vec3,
    diffuse: Vec3,
    specular: Vec3,
    intensity: u32,
    k: int,
)
    requires
        0 < k <= lights.len(),
        light_occluded(objs, hit.position, lights[k - 1]),
    ensures
        blinn_light_term(objs, camera, hit, lights[k - 1], diffuse, specular, intensity) == (Vec3 {
            x: 0,
            y: 0,
            z: 0,
        }),
        blinn_color(objs, camera, hit, lights, ambient, diffuse, specular, intensity, k)
            == blinn_color(objs, camera, hit, lights, ambient, diffuse, specular, intensity, k - 1),
{
}

/// The color seen along `ray`, or `None` where no object covers it.
#[verifier::rlimit(100)]
pub fn shade_ray(
    objects: &Objects,
    lights: &Vec<Light>,
    camera: &Camera,
    ray: &Ray,
    bounces_remaining: u32,
) -> (res: Option<Vec3>)
    ensures
        res == shade_spec(objects@, lights@, *camera, *ray, bounces_remaining as nat),
    decreases bounces_remaining,
{
    let hit_opt: Option<Hit> = objects.intersect(ray);
    match hit_opt {
        None => None,
        Some(hit) => match hit.material {
            Mat::DebugPosition => Some(hit.position),
            Mat::DebugNormals => Some(hit.normal),
            Mat::DebugShadows => {
                let mut ray_color: Vec3 = Vec3 { x: 0, y: 0, z: 0 };
                let n: usize = lights.len();
                let mut i: usize = 0;
                while i < n
                    invariant
                        i <= n,
                        n == lights@.len(),
                        ray_color == shadow_color_sum(objects@, lights@, hit, i as int),
                    decreases n - i,
                {
                    let l: Light = lights[i];
                    let behind: i128 = hit.normal.dot(l.position.minus(hit.position));
                    let c: Vec3 = if behind < 0 {
                        Vec3 { x: SCALE, y: 0, z: 0 }
                    } else if occluded(objects, hit.position, &l) {
                        Vec3 { x: 0, y: SCALE, z: 0 }
                    } else {
                        Vec3 { x: 0, y: 0, z: SCALE }
                    };
                    ray_color = ray_color.plus(c);
                    i = i + 1;
                }
                Some(ray_color.divide_count(n as i128))
            },
            Mat::Emissive { color } => Some(color),
            Mat::Mirror => {
                if bounces_remaining == 0 {
                    None
                } else {
                    let rdir: Vec3 = reflect(ray.direction, hit.normal);
                    let base: Ray = Ray { origin: hit.position, direction: rdir };
                    let rorigin: Vec3 = base.at(SHADOW_EPSILON);
                    let rray: Ray = Ray { origin: rorigin, direction: rdir };
                    let rcam: Camera = Camera {
                        origin: rorigin,
                        direction: rdir,
                        half_height: camera.half_height,
                        aspect: camera.aspect,
                    };
                    shade_ray(objects, lights, &rcam, &rray, bounces_remaining - 1)
                }
            },
            Mat::BlinnPhong { ambient, diffuse, specular, intensity } => {
                let mut ray_color: Vec3 = ambient;
                let n: usize = lights.len();
                let mut i: usize = 0;
                while i < n
                    invariant
                        i <= n,
                        n == lights@.len(),
                        ray_color == blinn_color(
                            objects@,
                            *camera,
                            hit,
                            lights@,
                            ambient,
                            diffuse,
                            specular,
                            intensity,
                            i as int,
                        ),
                    decreases n - i,
                {
                    let l: Light = lights[i];
                    let behind: i128 = hit.normal.dot(l.position.minus(hit.position));
                    if behind < 0 {
                        proof {
                            assert(blinn_light_term(
                                objects@,
                                *camera,
                                hit,
                                lights@[i as int],
                                diffuse,
                                specular,
                                intensity,
                            ) == (Vec3 { x: 0, y: 0, z: 0 }));
                        }
                    } else if occluded(objects, hit.position, &l) {
                        proof {
                            assert(blinn_light_term(
                                objects@,
                                *camera,
                                hit,
                                lights@[i as int],
                                diffuse,
                                specular,
                                intensity,
                            ) == (Vec3 { x: 0, y: 0, z: 0 }));
                        }
                    } else {
                        let r: i128 = l.position.distance(hit.position);
                        let p_nor: Vec3 = hit.normal.normalize();
                        let p_eye: Vec3 = camera.origin.minus(hit.position).normalize();
                        let p_light: Vec3 = l.position.minus(hit.position).normalize();
                        let p_half: Vec3 = p_light.plus(p_eye).normalize();
                        let dd: i128 = p_light.dot(p_nor);
                        let cd: Vec3 = diffuse.scale(
                            if dd < 0 {
                                0
                            } else {
                                dd
                            },
                        );
                        let hd: i128 = p_half.dot(p_nor);
                        let hmax: i128 = if hd < 0 {
                            0
                        } else {
                            hd
                        };
                        let cs: Vec3 = specular.scale(pow_fx(hmax, intensity));
                        let att3: (i128, i128, i128) = match l.attenuation {
                            Some(t) => t,
                            None => (SCALE, 0, 0),
                        };
                        let den: i128 = add_fx(
                            add_fx(att3.0, mul_fx(att3.1, r)),
                            mul_fx(mul_fx(att3.2, r), r),
                        );
                        let att: i128 = div_fx(SCALE, den);
                        let term: Vec3 = l.color.scale(l.intensity).mul_element(cd.plus(cs)).scale(
                            att,
                        );
                        proof {
                            assert(term == blinn_light_term(
                                objects@,
                                *camera,
                                hit,
                                lights@[i as int],
                                diffuse,
                                specular,
                                intensity,
                            ));
                        }
                        ray_color = ray_color.plus(term);
                    }
                    i = i + 1;
                }
                Some(ray_color)
            },
        },
    }
}

} // verus!
