//! Geometry-layer tests: scalar arithmetic, vectors, rays and the four
//! primitive intersections, on exact fixed-point values (scale 65536).

use raytracer::fixed::{div_fx, mul_fx, pow_fx, sqrt_fx, SCALE};
use raytracer::material::Material;
use raytracer::mesh::Mesh;
use raytracer::transform::{Affine, Mat3};
use raytracer::vec3::Vec3;
use raytracer::{Ellipsoid, Intersect, Plane, Ray, Sphere};

const S: i128 = SCALE;

fn v(x: i128, y: i128, z: i128) -> Vec3 {
    Vec3 { x, y, z }
}

fn identity() -> Affine {
    Affine {
        linear: Mat3 { r0: v(S, 0, 0), r1: v(0, S, 0), r2: v(0, 0, S) },
        translation: v(0, 0, 0),
    }
}

fn translate(t: Vec3) -> Affine {
    Affine { linear: identity().linear, translation: t }
}

#[test]
fn scalar_ops_exact_values() {
    assert_eq!(mul_fx(3 * S, 2 * S), 6 * S);
    assert_eq!(mul_fx(-3 * S, 2 * S), -6 * S);
    assert_eq!(div_fx(S, 2 * S), S / 2);
    assert_eq!(div_fx(S, 0), 0);
    assert_eq!(sqrt_fx(4 * S), 2 * S);
    assert_eq!(sqrt_fx(16 * S), 4 * S);
    assert_eq!(sqrt_fx(2 * S), 92681);
    assert_eq!(sqrt_fx(-S), 0);
    assert_eq!(pow_fx(S / 2, 0), S);
    assert_eq!(pow_fx(S / 2, 1), S / 2);
    assert_eq!(pow_fx(S / 2, 2), S / 4);
}

#[test]
fn scalar_ops_saturate_instead_of_wrapping() {
    // The raw product clamps at the extremes before the rescale, so a
    // doubling that would wrap comes out as MAX / SCALE, not garbage.
    assert_eq!(mul_fx(i128::MAX, 2 * S), i128::MAX / S);
    assert_eq!(mul_fx(i128::MIN, 2 * S), i128::MIN / S);
    assert!(sqrt_fx(i128::MAX) > 0);
}

#[test]
fn vector_ops_exact_values() {
    let a = v(S, 2 * S, 3 * S);
    let b = v(4 * S, 5 * S, 6 * S);
    assert_eq!(a.plus(b), v(5 * S, 7 * S, 9 * S));
    assert_eq!(b.minus(a), v(3 * S, 3 * S, 3 * S));
    assert_eq!(a.dot(b), 32 * S);
    assert_eq!(a.cross(b), v(-3 * S, 6 * S, -3 * S));
    assert_eq!(a.scale(2 * S), v(2 * S, 4 * S, 6 * S));
    assert_eq!(v(3 * S, 4 * S, 0).length(), 5 * S);
    assert_eq!(v(0, 0, -7 * S).normalize(), v(0, 0, -S));
    assert_eq!(v(0, 0, 0).normalize(), v(0, 0, 0));
    assert_eq!(v(S, 0, 0).distance(v(S, 3 * S, 4 * S)), 5 * S);
    assert_eq!(a.mul_element(b), v(4 * S, 10 * S, 18 * S));
    assert_eq!(v(3 * S, 6 * S, 9 * S).divide_count(3), v(S, 2 * S, 3 * S));
}

#[test]
fn ray_at_walks_the_parametric_line() {
    let ray = Ray { origin: v(S, 2 * S, 3 * S), direction: v(S, 0, 0) };
    assert_eq!(ray.at(2 * S), v(3 * S, 2 * S, 3 * S));
    assert_eq!(ray.at(0), v(S, 2 * S, 3 * S));
}

#[test]
fn sphere_head_on_hit() {
    let sphere = Sphere {
        origin: v(0, 0, -5 * S),
        radius: S,
        material: Material::DebugNormals,
    };
    let ray = Ray { origin: v(0, 0, 0), direction: v(0, 0, -S) };
    let hit = sphere.intersect(&ray).expect("the ray points straight at the sphere");
    assert_eq!(hit.distance, 4 * S);
    assert_eq!(hit.position, v(0, 0, -4 * S));
    assert_eq!(hit.normal, v(0, 0, S));
}

#[test]
fn sphere_hit_lies_on_the_surface() {
    let sphere = Sphere {
        origin: v(S, 2 * S, -10 * S),
        radius: 3 * S,
        material: Material::Mirror,
    };
    let ray = Ray { origin: v(0, 0, 0), direction: v(0, 0, -S) };
    let hit = sphere.intersect(&ray).expect("the offset is inside the radius");
    assert!(hit.distance >= 0);
    let r = hit.position.distance(sphere.origin);
    assert!((r - 3 * S).abs() <= 64, "|pos - center| = {r} is not close to 3");
}

#[test]
fn sphere_miss_and_behind() {
    let sphere = Sphere {
        origin: v(0, 0, -5 * S),
        radius: S,
        material: Material::Mirror,
    };
    let away = Ray { origin: v(0, 0, 0), direction: v(0, 0, S) };
    assert!(sphere.intersect(&away).is_none());
    let wide = Ray { origin: v(5 * S, 0, 0), direction: v(0, 0, -S) };
    assert!(sphere.intersect(&wide).is_none());
}

#[test]
fn plane_head_on_hit() {
    let plane = Plane {
        origin: v(0, -S, 0),
        normal: v(0, S, 0),
        material: Material::Mirror,
    };
    let ray = Ray { origin: v(0, 5 * S, 0), direction: v(0, -S, 0) };
    let hit = plane.intersect(&ray).expect("the ray falls onto the plane");
    assert_eq!(hit.distance, 6 * S);
    assert_eq!(hit.position, v(0, -S, 0));
    assert_eq!(hit.normal, v(0, S, 0));
}

#[test]
fn plane_parallel_ray_misses() {
    let plane = Plane {
        origin: v(0, -S, 0),
        normal: v(0, S, 0),
        material: Material::Mirror,
    };
    let along_x = Ray { origin: v(0, 5 * S, 0), direction: v(S, 0, 0) };
    assert!(plane.intersect(&along_x).is_none());
    let diagonal = Ray { origin: v(0, 5 * S, 0), direction: v(S, 0, -S) };
    assert!(plane.intersect(&diagonal).is_none());
}

#[test]
fn plane_behind_ray_misses() {
    let plane = Plane {
        origin: v(0, 0, 0),
        normal: v(0, S, 0),
        material: Material::Mirror,
    };
    let ray = Ray { origin: v(0, 5 * S, 0), direction: v(0, S, 0) };
    assert!(plane.intersect(&ray).is_none());
}

#[test]
fn ellipsoid_as_translated_unit_sphere_matches_sphere() {
    let center = v(0, 0, -5 * S);
    let sphere = Sphere { origin: center, radius: S, material: Material::DebugNormals };
    let ellipsoid = Ellipsoid {
        transform: translate(center),
        inverse: translate(v(0, 0, 5 * S)),
        material: Material::DebugNormals,
    };
    let ray = Ray { origin: v(0, 0, 0), direction: v(0, 0, -S) };
    let hs = sphere.intersect(&ray).expect("the sphere is hit");
    let he = ellipsoid.intersect(&ray).expect("the ellipsoid is hit");
    assert_eq!(hs.distance, 4 * S);
    assert_eq!(he.distance, 4 * S);
    assert_eq!(he.position, v(0, 0, -4 * S));

    let away = Ray { origin: v(0, 0, 0), direction: v(0, 0, S) };
    assert!(sphere.intersect(&away).is_none());
    assert!(ellipsoid.intersect(&away).is_none());
}

#[test]
fn ellipsoid_stretched_along_x() {
    // Semi-axes (2, 1, 1) about the origin: forward scale 2 in x, inverse 1/2.
    let ellipsoid = Ellipsoid {
        transform: Affine {
            linear: Mat3 { r0: v(2 * S, 0, 0), r1: v(0, S, 0), r2: v(0, 0, S) },
            translation: v(0, 0, 0),
        },
        inverse: Affine {
            linear: Mat3 { r0: v(S / 2, 0, 0), r1: v(0, S, 0), r2: v(0, 0, S) },
            translation: v(0, 0, 0),
        },
        material: Material::Mirror,
    };
    let ray = Ray { origin: v(5 * S, 0, 0), direction: v(-S, 0, 0) };
    let hit = ellipsoid.intersect(&ray).expect("the ray points at the ellipsoid");
    assert_eq!(hit.distance, 3 * S);
    assert_eq!(hit.position, v(2 * S, 0, 0));
    // The normal goes through the forward inverse, not the inverse
    // transpose: it comes back shortened, not lengthened.
    assert_eq!(hit.normal, v(S / 2, 0, 0));
}

#[test]
fn mesh_single_triangle_hit() {
    let mesh = Mesh {
        vertices: vec![v(0, 0, 0), v(S, 0, 0), v(0, S, 0)],
        normals: vec![],
        transform: identity(),
        inverse: identity(),
        material: Material::DebugNormals,
    };
    let ray = Ray { origin: v(S / 4, S / 4, S), direction: v(0, 0, -S) };
    let hit = mesh.intersect(&ray).expect("the ray passes inside the triangle");
    assert_eq!(hit.distance, S);
    assert_eq!(hit.position, v(S / 4, S / 4, 0));
    assert_eq!(hit.normal, v(0, 0, S));
}

#[test]
fn mesh_triangle_hit_from_behind() {
    // The test is two-sided: the same triangle is hit from below too.
    let mesh = Mesh {
        vertices: vec![v(0, 0, 0), v(S, 0, 0), v(0, S, 0)],
        normals: vec![],
        transform: identity(),
        inverse: identity(),
        material: Material::DebugNormals,
    };
    let ray = Ray { origin: v(S / 4, S / 4, -S), direction: v(0, 0, S) };
    let hit = mesh.intersect(&ray).expect("the back face counts as well");
    assert_eq!(hit.distance, S);
    assert_eq!(hit.position, v(S / 4, S / 4, 0));
}

#[test]
fn mesh_misses() {
    let mesh = Mesh {
        vertices: vec![v(0, 0, 0), v(S, 0, 0), v(0, S, 0)],
        normals: vec![],
        transform: identity(),
        inverse: identity(),
        material: Material::DebugNormals,
    };
    // Parallel to the triangle's plane.
    let parallel = Ray { origin: v(0, 0, S), direction: v(S, 0, 0) };
    assert!(mesh.intersect(&parallel).is_none());
    // Outside the barycentric bounds.
    let outside = Ray { origin: v(2 * S, 2 * S, S), direction: v(0, 0, -S) };
    assert!(mesh.intersect(&outside).is_none());
    // The triangle lies behind the ray.
    let behind = Ray { origin: v(S / 4, S / 4, S), direction: v(0, 0, S) };
    assert!(mesh.intersect(&behind).is_none());
}

#[test]
fn mesh_interpolates_vertex_normals() {
    let mesh = Mesh {
        vertices: vec![v(0, 0, 0), v(S, 0, 0), v(0, S, 0)],
        normals: vec![v(S, 0, 0), v(0, S, 0), v(0, 0, S)],
        transform: identity(),
        inverse: identity(),
        material: Material::DebugNormals,
    };
    let ray = Ray { origin: v(S / 4, S / 4, S), direction: v(0, 0, -S) };
    let hit = mesh.intersect(&ray).expect("the ray passes inside the triangle");
    // Weights (w, u, v) = (1/2, 1/4, 1/4) blend the three axis normals to
    // (1/2, 1/4, 1/4), which normalizes to about (0.8165, 0.4082, 0.4082).
    assert!((hit.normal.x - 53510).abs() <= 2, "normal.x = {}", hit.normal.x);
    assert!((hit.normal.y - 26755).abs() <= 2, "normal.y = {}", hit.normal.y);
    assert!((hit.normal.z - 26755).abs() <= 2, "normal.z = {}", hit.normal.z);
}

#[test]
fn mesh_empty_has_no_hits() {
    let mesh = Mesh {
        vertices: vec![],
        normals: vec![],
        transform: identity(),
        inverse: identity(),
        material: Material::DebugNormals,
    };
    let ray = Ray { origin: v(0, 0, S), direction: v(0, 0, -S) };
    assert!(mesh.intersect(&ray).is_none());
}
