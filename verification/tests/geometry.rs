use pathtracer::fx::FX_ONE;
use pathtracer::material::Material;
use pathtracer::render::{intersect, Primitive, Ray};
use pathtracer::scene::{cube, Parallelogram, Plane, Scene, Sphere};
use pathtracer::vector::Vec3;

const S: i64 = FX_ONE;

fn v(x: i64, y: i64, z: i64) -> Vec3 {
    Vec3 { x, y, z }
}

fn ray_from(origin: Vec3, dir: Vec3) -> Ray {
    Ray { origin, dir, color: Vec3::one(), emitted: Vec3::zero(), n: S }
}

fn mat_with_albedo(albedo: Vec3) -> Material {
    Material { albedo, ..Material::default() }
}

#[test]
fn sphere_hit_from_outside() {
    let sphere = Sphere { centre: v(0, 0, 0), radius: S, mat: Material::default() };
    let ray = ray_from(v(0, 0, 5 * S), v(0, 0, -S));
    let it = sphere.intersect(&ray);
    assert!(it.hit);
    assert_eq!(it.dist, 4 * S);
    assert_eq!(it.pos, v(0, 0, S));
    assert_eq!(it.normal, v(0, 0, S));
}

#[test]
fn sphere_miss() {
    let sphere = Sphere { centre: v(0, 0, 0), radius: S, mat: Material::default() };
    let ray = ray_from(v(0, 5 * S, 5 * S), v(0, 0, -S));
    let it = sphere.intersect(&ray);
    assert!(!it.hit);
}

#[test]
fn sphere_behind_ray_is_missed() {
    let sphere = Sphere { centre: v(0, 0, 0), radius: S, mat: Material::default() };
    let ray = ray_from(v(0, 0, 5 * S), v(0, 0, S));
    let it = sphere.intersect(&ray);
    assert!(!it.hit);
}

#[test]
fn plane_hit() {
    let plane = Plane { normal: v(0, S, 0), pos: v(0, 0, 0), mat: Material::default() };
    let ray = ray_from(v(0, 5 * S, 0), v(0, -S, 0));
    let it = plane.intersect(&ray);
    assert!(it.hit);
    assert_eq!(it.dist, 5 * S);
    assert_eq!(it.pos, v(0, 0, 0));
}

#[test]
fn plane_parallel_ray_is_missed() {
    let plane = Plane { normal: v(0, S, 0), pos: v(0, 0, 0), mat: Material::default() };
    let ray = ray_from(v(0, 5 * S, 0), v(S, 0, 0));
    let it = plane.intersect(&ray);
    assert!(!it.hit);
}

#[test]
fn parallelogram_bounded_hit_matches_plane() {
    let mat = Material::default();
    let pgram = Parallelogram::new(v(0, 0, 0), v(2 * S, 0, 0), v(0, 2 * S, 0), mat);
    let plane = Plane { normal: v(0, 0, S), pos: v(0, 0, 0), mat };
    let inside = ray_from(v(S, S, 5 * S), v(0, 0, -S));
    let it = pgram.intersect(&inside);
    let pl = plane.intersect(&inside);
    assert!(it.hit);
    assert!(pl.hit);
    assert_eq!(it.dist, pl.dist);
    assert_eq!(it.dist, 5 * S);
}

#[test]
fn parallelogram_outside_bounds_is_missed() {
    let mat = Material::default();
    let pgram = Parallelogram::new(v(0, 0, 0), v(2 * S, 0, 0), v(0, 2 * S, 0), mat);
    let plane = Plane { normal: v(0, 0, S), pos: v(0, 0, 0), mat };
    let outside = ray_from(v(3 * S, S, 5 * S), v(0, 0, -S));
    assert!(!pgram.intersect(&outside).hit);
    // the unbounded plane still reports a hit for the same ray
    assert!(plane.intersect(&outside).hit);
}

fn dot(a: Vec3, b: Vec3) -> i64 {
    a.dot(&b)
}

#[test]
fn sphere_normal_opposes_ray_outside_and_inside() {
    let sphere = Sphere { centre: v(0, 0, 0), radius: S, mat: Material::default() };
    let outside = ray_from(v(0, 0, 5 * S), v(0, 0, -S));
    let from_out = sphere.intersect(&outside);
    assert!(from_out.hit);
    assert!(dot(from_out.normal, outside.dir) <= 0);

    let inside = ray_from(v(0, 0, 0), v(0, 0, -S));
    let from_in = sphere.intersect(&inside);
    assert!(from_in.hit);
    assert_eq!(from_in.dist, S);
    assert_eq!(from_in.normal, v(0, 0, S));
    assert!(dot(from_in.normal, inside.dir) <= 0);
}

#[test]
fn parallelogram_normal_opposes_ray_front_and_back() {
    let mat = Material::default();
    let pgram = Parallelogram::new(v(0, 0, 0), v(2 * S, 0, 0), v(0, 2 * S, 0), mat);
    let front = ray_from(v(S, S, 5 * S), v(0, 0, -S));
    let f = pgram.intersect(&front);
    assert!(f.hit);
    assert_eq!(f.normal, v(0, 0, S));
    assert!(dot(f.normal, front.dir) <= 0);

    let back = ray_from(v(S, S, -5 * S), v(0, 0, S));
    let b = pgram.intersect(&back);
    assert!(b.hit);
    assert_eq!(b.normal, v(0, 0, -S));
    assert!(dot(b.normal, back.dir) <= 0);
}

#[test]
fn closest_hit_picks_nearer_sphere_either_order() {
    let red = mat_with_albedo(v(S, 0, 0));
    let blue = mat_with_albedo(v(0, 0, S));
    let far_sphere = Sphere { centre: v(0, 0, 0), radius: S, mat: red };
    let near_sphere = Sphere { centre: v(0, 0, 2 * S), radius: S, mat: blue };
    let ray = ray_from(v(0, 0, 5 * S), v(0, 0, -S));

    let scene_a = Scene {
        objects: vec![Primitive::Sphere(far_sphere), Primitive::Sphere(near_sphere)],
    };
    let scene_b = Scene {
        objects: vec![Primitive::Sphere(near_sphere), Primitive::Sphere(far_sphere)],
    };
    let it_a = intersect(&ray, &scene_a);
    let it_b = intersect(&ray, &scene_b);
    assert!(it_a.hit && it_b.hit);
    assert_eq!(it_a.dist, 2 * S);
    assert_eq!(it_b.dist, 2 * S);
    assert_eq!(it_a.mat.albedo, blue.albedo);
    assert_eq!(it_b.mat.albedo, blue.albedo);
}

#[test]
fn empty_scene_reports_no_hit() {
    let scene = Scene { objects: vec![] };
    let ray = ray_from(v(0, 0, 5 * S), v(0, 0, -S));
    assert!(!intersect(&ray, &scene).hit);
}

#[test]
fn cube_faces_intersect_like_a_box() {
    let faces = cube(v(0, 0, 0), S, Material::default());
    let mut objects = Vec::new();
    for f in faces {
        objects.push(Primitive::Parallelogram(f));
    }
    let scene = Scene { objects };
    // a ray down the z axis through the middle of the box
    let ray = ray_from(v(S / 2, S / 2, 5 * S), v(0, 0, -S));
    let it = intersect(&ray, &scene);
    assert!(it.hit);
    assert_eq!(it.dist, 4 * S);
    assert_eq!(it.normal, v(0, 0, S));
}
