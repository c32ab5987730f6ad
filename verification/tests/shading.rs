//! Scene aggregation, camera and shading tests.

use raytracer::fixed::SCALE;
use raytracer::material::Material;
use raytracer::mesh::Mesh;
use raytracer::transform::{Affine, Mat3};
use raytracer::vec3::Vec3;
use raytracer::{shade_ray, Camera, Hit, Intersect, Light, Object, Plane, Ray, Sphere};

const S: i128 = SCALE;

fn v(x: i128, y: i128, z: i128) -> Vec3 {
    Vec3 { x, y, z }
}

fn sphere(origin: Vec3, radius: i128, material: Material) -> Object {
    Object::Sphere(Sphere { origin, radius, material })
}

fn floor_plane(material: Material) -> Object {
    Object::Plane(Plane { origin: v(0, 0, 0), normal: v(0, S, 0), material })
}

fn camera_at(origin: Vec3, direction: Vec3) -> Camera {
    Camera { origin, direction, half_height: S, aspect: S }
}

#[test]
fn scene_returns_nearest_hit() {
    let far = sphere(v(0, 0, -5 * S), S, Material::Mirror);
    let near = sphere(v(0, 0, -3 * S), S, Material::DebugNormals);
    let objects: Vec<Object> = vec![far, near];
    let ray = Ray { origin: v(0, 0, 0), direction: v(0, 0, -S) };
    let hit = objects.intersect(&ray).expect("both spheres lie on the ray");
    assert_eq!(hit.distance, 2 * S);
    assert!(matches!(hit.material, Material::DebugNormals));
}

#[test]
fn scene_tie_goes_to_the_first_object() {
    let first = sphere(v(0, 0, -3 * S), S, Material::DebugPosition);
    let second = sphere(v(0, 0, -3 * S), S, Material::DebugNormals);
    let objects: Vec<Object> = vec![first, second];
    let ray = Ray { origin: v(0, 0, 0), direction: v(0, 0, -S) };
    let hit = objects.intersect(&ray).expect("both spheres lie on the ray");
    assert!(matches!(hit.material, Material::DebugPosition));
}

#[test]
fn scene_mixes_primitive_kinds() {
    let identity = Affine {
        linear: Mat3 { r0: v(S, 0, 0), r1: v(0, S, 0), r2: v(0, 0, S) },
        translation: v(0, 0, 0),
    };
    let triangle = Object::Mesh(Mesh {
        vertices: vec![v(-S, -S, -2 * S), v(S, -S, -2 * S), v(0, S, -2 * S)],
        normals: vec![],
        transform: identity,
        inverse: identity,
        material: Material::DebugPosition,
    });
    let ball = sphere(v(0, 0, -5 * S), S, Material::DebugNormals);
    let objects: Vec<Object> = vec![ball, triangle];
    let ray = Ray { origin: v(0, 0, 0), direction: v(0, 0, -S) };
    let hit = objects.intersect(&ray).expect("the triangle covers the ray");
    assert_eq!(hit.distance, 2 * S);
    assert!(matches!(hit.material, Material::DebugPosition));
}

#[test]
fn scene_empty_and_all_missing() {
    let ray = Ray { origin: v(0, 0, 0), direction: v(0, 0, -S) };
    let empty: Vec<Object> = vec![];
    assert!(empty.intersect(&ray).is_none());
    let behind: Vec<Object> = vec![sphere(v(0, 0, 5 * S), S, Material::Mirror)];
    assert!(behind.intersect(&ray).is_none());
}

#[test]
fn hit_ordering_is_by_distance_only() {
    let a = Hit {
        distance: S,
        position: v(0, 0, 0),
        normal: v(0, S, 0),
        material: Material::Mirror,
    };
    let b = Hit {
        distance: 2 * S,
        position: v(9 * S, 9 * S, 9 * S),
        normal: v(S, 0, 0),
        material: Material::DebugNormals,
    };
    let c = Hit {
        distance: S,
        position: v(5 * S, 0, 0),
        normal: v(0, 0, S),
        material: Material::DebugShadows,
    };
    assert!(a < b);
    assert!(b > a);
    assert!(a == c);
    assert!(a != b);
    assert_eq!(a.partial_cmp(&c), Some(std::cmp::Ordering::Equal));
}

#[test]
fn camera_center_ray_points_forward() {
    let camera = camera_at(v(0, 0, 0), v(0, 0, -S));
    let ray = camera.get_ray(S / 2, S / 2);
    assert_eq!(ray.origin, v(0, 0, 0));
    assert_eq!(ray.direction, v(0, 0, -S));
}

#[test]
fn camera_corner_rays_span_the_viewport() {
    let camera = camera_at(v(0, 0, 0), v(0, 0, -S));
    let lower_left = camera.get_ray(0, 0);
    assert_eq!(lower_left.direction, v(-S, -S, -S));
    let upper_right = camera.get_ray(S, S);
    assert_eq!(upper_right.direction, v(S, S, -S));
}

#[test]
fn shade_background_is_none() {
    let objects: Vec<Object> = vec![];
    let lights: Vec<Light> = vec![];
    let camera = camera_at(v(0, 0, 0), v(0, 0, -S));
    let ray = Ray { origin: v(0, 0, 0), direction: v(0, 0, -S) };
    assert!(shade_ray(&objects, &lights, &camera, &ray, 4).is_none());
}

#[test]
fn shade_emissive_returns_its_color() {
    let color = v(S / 4, S / 2, S);
    let objects: Vec<Object> = vec![sphere(v(0, 0, -5 * S), S, Material::Emissive { color })];
    let lights: Vec<Light> = vec![];
    let camera = camera_at(v(0, 0, 0), v(0, 0, -S));
    let ray = Ray { origin: v(0, 0, 0), direction: v(0, 0, -S) };
    assert_eq!(shade_ray(&objects, &lights, &camera, &ray, 0), Some(color));
}

#[test]
fn shade_debug_position_and_normals() {
    let objects: Vec<Object> = vec![sphere(v(0, 0, -5 * S), S, Material::DebugNormals)];
    let lights: Vec<Light> = vec![];
    let camera = camera_at(v(0, 0, 0), v(0, 0, -S));
    let ray = Ray { origin: v(0, 0, 0), direction: v(0, 0, -S) };
    assert_eq!(shade_ray(&objects, &lights, &camera, &ray, 0), Some(v(0, 0, S)));

    let objects: Vec<Object> = vec![sphere(v(0, 0, -5 * S), S, Material::DebugPosition)];
    assert_eq!(shade_ray(&objects, &lights, &camera, &ray, 0), Some(v(0, 0, -4 * S)));
}

#[test]
fn shade_mirror_with_zero_bounces_is_none() {
    let objects: Vec<Object> = vec![floor_plane(Material::Mirror)];
    let lights: Vec<Light> = vec![];
    let camera = camera_at(v(0, 3 * S, 0), v(0, -S, 0));
    let ray = Ray { origin: v(0, 3 * S, 0), direction: v(0, -S, 0) };
    assert!(shade_ray(&objects, &lights, &camera, &ray, 0).is_none());
    // With a bounce left but nothing to reflect into, still no color.
    assert!(shade_ray(&objects, &lights, &camera, &ray, 1).is_none());
}

#[test]
fn shade_mirror_reflects_into_emissive() {
    let color = v(S, S / 2, S / 4);
    let mirror = floor_plane(Material::Mirror);
    let bulb = sphere(v(0, 5 * S, 0), S, Material::Emissive { color });
    let objects: Vec<Object> = vec![mirror, bulb];
    let lights: Vec<Light> = vec![];
    let camera = camera_at(v(0, 5 * S, 0), v(0, -S, 0));
    // Straight down from just beside the bulb's center: the plane reflects
    // the ray back up into the bulb.
    let ray = Ray { origin: v(0, 5 * S, 0), direction: v(0, -S, 0) };
    assert!(shade_ray(&objects, &lights, &camera, &ray, 0).is_none());
    assert_eq!(shade_ray(&objects, &lights, &camera, &ray, 1), Some(color));
}

fn blinn_floor() -> Object {
    floor_plane(Material::BlinnPhong {
        ambient: v(6554, 6554, 6554),
        diffuse: v(S / 2, S / 2, S / 2),
        specular: v(0, 0, 0),
        intensity: 1,
    })
}

fn white_light(position: Vec3, attenuation: Option<(i128, i128, i128)>) -> Light {
    Light { position, color: v(S, S, S), intensity: S, attenuation }
}

#[test]
fn blinn_phong_lit_point_adds_diffuse() {
    let objects: Vec<Object> = vec![blinn_floor()];
    let lights: Vec<Light> = vec![white_light(v(0, 4 * S, 0), None)];
    let camera = camera_at(v(3 * S, 3 * S, 0), v(-S, -S, 0));
    let ray = Ray { origin: v(3 * S, 3 * S, 0), direction: v(-S, -S, 0) };
    // The ray lands on the origin; the light stands straight above it, so
    // the diffuse term is exactly diffuse * 1, with no falloff.
    let color = shade_ray(&objects, &lights, &camera, &ray, 0).expect("the floor is hit");
    assert_eq!(color, v(6554 + S / 2, 6554 + S / 2, 6554 + S / 2));
}

#[test]
fn blinn_phong_specular_head_on() {
    // Eye, light and normal are all aligned, so the half-vector dot is
    // exactly one and the specular power stays one through every step.
    let floor = floor_plane(Material::BlinnPhong {
        ambient: v(6554, 6554, 6554),
        diffuse: v(S / 4, S / 4, S / 4),
        specular: v(S / 4, S / 4, S / 4),
        intensity: 5,
    });
    let objects: Vec<Object> = vec![floor];
    let lights: Vec<Light> = vec![white_light(v(0, 4 * S, 0), None)];
    let camera = camera_at(v(0, 3 * S, 0), v(0, -S, 0));
    let ray = Ray { origin: v(0, 3 * S, 0), direction: v(0, -S, 0) };
    let color = shade_ray(&objects, &lights, &camera, &ray, 0).expect("the floor is hit");
    assert_eq!(color, v(6554 + S / 2, 6554 + S / 2, 6554 + S / 2));
}

#[test]
fn blinn_phong_occluded_light_adds_nothing() {
    let occluder = sphere(v(0, 2 * S, 0), S / 2, Material::Mirror);
    let objects: Vec<Object> = vec![blinn_floor(), occluder];
    let lights: Vec<Light> = vec![white_light(v(0, 4 * S, 0), None)];
    let camera = camera_at(v(3 * S, 3 * S, 0), v(-S, -S, 0));
    let ray = Ray { origin: v(3 * S, 3 * S, 0), direction: v(-S, -S, 0) };
    // The sphere stands between the struck point and the light: the whole
    // diffuse contribution disappears and only ambient is left.
    let color = shade_ray(&objects, &lights, &camera, &ray, 0).expect("the floor is hit");
    assert_eq!(color, v(6554, 6554, 6554));
}

#[test]
fn blinn_phong_light_behind_surface_adds_nothing() {
    let objects: Vec<Object> = vec![blinn_floor()];
    let lights: Vec<Light> = vec![white_light(v(0, -4 * S, 0), None)];
    let camera = camera_at(v(3 * S, 3 * S, 0), v(-S, -S, 0));
    let ray = Ray { origin: v(3 * S, 3 * S, 0), direction: v(-S, -S, 0) };
    let color = shade_ray(&objects, &lights, &camera, &ray, 0).expect("the floor is hit");
    assert_eq!(color, v(6554, 6554, 6554));
}

#[test]
fn blinn_phong_quadratic_attenuation() {
    let objects: Vec<Object> = vec![blinn_floor()];
    // Quadratic falloff: at distance 4 the denominator is 1 + 16 = 17.
    let lights: Vec<Light> = vec![white_light(v(0, 4 * S, 0), Some((S, 0, S)))];
    let camera = camera_at(v(3 * S, 3 * S, 0), v(-S, -S, 0));
    let ray = Ray { origin: v(3 * S, 3 * S, 0), direction: v(-S, -S, 0) };
    let color = shade_ray(&objects, &lights, &camera, &ray, 0).expect("the floor is hit");
    // attenuation = floor(65536 / 17) = 3855; term = floor(32768 * 3855 / 65536).
    assert_eq!(color, v(6554 + 1927, 6554 + 1927, 6554 + 1927));
}

#[test]
fn debug_shadows_color_codes_lights() {
    let objects: Vec<Object> = vec![floor_plane(Material::DebugShadows)];
    // One light above (lit: blue), one below the floor (behind: red).
    let lights: Vec<Light> =
        vec![white_light(v(0, 4 * S, 0), None), white_light(v(0, -4 * S, 0), None)];
    let camera = camera_at(v(3 * S, 3 * S, 0), v(-S, -S, 0));
    let ray = Ray { origin: v(3 * S, 3 * S, 0), direction: v(-S, -S, 0) };
    let color = shade_ray(&objects, &lights, &camera, &ray, 0).expect("the floor is hit");
    assert_eq!(color, v(S / 2, 0, S / 2));
}

#[test]
fn debug_shadows_marks_occlusion_green() {
    let occluder = sphere(v(0, 2 * S, 0), S / 2, Material::Mirror);
    let objects: Vec<Object> = vec![floor_plane(Material::DebugShadows), occluder];
    let lights: Vec<Light> = vec![white_light(v(0, 4 * S, 0), None)];
    let camera = camera_at(v(3 * S, 3 * S, 0), v(-S, -S, 0));
    let ray = Ray { origin: v(3 * S, 3 * S, 0), direction: v(-S, -S, 0) };
    let color = shade_ray(&objects, &lights, &camera, &ray, 0).expect("the floor is hit");
    assert_eq!(color, v(0, S, 0));
}
