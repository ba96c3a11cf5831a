use pathtracer::fx::FX_ONE;
use pathtracer::render::Camera;
use pathtracer::rng::Rng;
use pathtracer::vector::{Mat4, Vec3};

const S: i64 = FX_ONE;

fn v(x: i64, y: i64, z: i64) -> Vec3 {
    Vec3 { x, y, z }
}

#[test]
fn add_minus_scale_mult() {
    let a = v(S, 2 * S, 3 * S);
    let b = v(4 * S, 5 * S, 6 * S);
    assert_eq!(a.add(&b), v(5 * S, 7 * S, 9 * S));
    assert_eq!(b.minus(&a), v(3 * S, 3 * S, 3 * S));
    assert_eq!(a.scale(2 * S), v(2 * S, 4 * S, 6 * S));
    assert_eq!(a.mult(&b), v(4 * S, 10 * S, 18 * S));
}

#[test]
fn dot_cross_norm() {
    let a = v(S, 0, 0);
    let b = v(0, S, 0);
    assert_eq!(a.dot(&b), 0);
    assert_eq!(a.cross(&b), v(0, 0, S));
    assert_eq!(b.cross(&a), v(0, 0, -S));
    assert_eq!(v(0, 3 * S, 4 * S).norm(), 5 * S);
}

#[test]
fn normalized_pythagorean() {
    let n = v(0, 3 * S, 4 * S).normalized();
    // 1/5 in raw units is 13107, so components round toward zero
    assert_eq!(n, v(0, 39321, 52428));
    // normalization multiplies by the reciprocal norm, so 7 * (1/7) loses
    // two raw units to rounding
    assert_eq!(v(0, 0, 7 * S).normalized(), v(0, 0, S - 2));
    // the zero vector stays zero by policy
    assert_eq!(v(0, 0, 0).normalized(), v(0, 0, 0));
}

#[test]
fn affine_remaps_unit_interval() {
    let a = v(0, S / 2, S);
    assert_eq!(a.affine(0, S, -S, S), v(-S, 0, S));
}

#[test]
fn apply_to_each_applies() {
    let a = v(1, 2, 3);
    let r = a.apply_to_each(|c| c * 10);
    assert_eq!(r, v(10, 20, 30));
}

#[test]
fn rotate_to_face_aligned_cases() {
    let a = v(123, 456, 789);
    assert_eq!(a.rotate_to_face(&v(0, 0, S)), a);
    assert_eq!(a.rotate_to_face(&v(0, 0, -S)), v(-123, -456, -789));
}

#[test]
fn rotate_to_face_turns_z_to_x() {
    let r = v(0, 0, S).rotate_to_face(&v(S, 0, 0));
    assert_eq!(r, v(S, 0, 0));
}

#[test]
fn rotate_around_quarter_turn() {
    // rotate +x about +z by 90 degrees: cos 0, sin 1
    let r = v(S, 0, 0).rotate_around(&v(0, 0, S), 0, S);
    assert_eq!(r, v(0, S, 0));
}

#[test]
fn mat4_identity_apply() {
    let id = Mat4::fromColumns(&v(S, 0, 0), &v(0, S, 0), &v(0, 0, S));
    let p = id.apply_pos3(&v(2 * S, 3 * S, 4 * S)).as_vec3();
    assert_eq!(p, v(2 * S, 3 * S, 4 * S));
    let d = id.apply_dir3(&v(0, 0, -S)).as_vec3();
    assert_eq!(d, v(0, 0, -S));
}

#[test]
fn mat4_product_with_identity() {
    let id = Mat4::fromColumns(&v(S, 0, 0), &v(0, S, 0), &v(0, 0, S));
    let m = Mat4::fromColumns(&v(S, 2 * S, 0), &v(0, S, 0), &v(3 * S, 0, S));
    let p = m.product(&id);
    assert_eq!(p.elems, m.elems);
}

#[test]
fn look_at_down_z_is_identity_basis() {
    let m = Mat4::look_at(&v(0, 0, -S));
    assert_eq!(m.elems[0], [S, 0, 0, 0]);
    assert_eq!(m.elems[1], [0, S, 0, 0]);
    assert_eq!(m.elems[2], [0, 0, S, 0]);
    assert_eq!(m.elems[3], [0, 0, 0, S]);
}

#[test]
fn camera_new_builds_look_at_basis() {
    let cam = Camera::new(v(0, 0, 5 * S), v(0, 0, 0), S);
    assert_eq!(cam.pos, v(0, 0, 5 * S));
    assert_eq!(cam.focal_length, S);
    // normalizing (0, 0, -5) costs one unit of precision in fixed point:
    // the view direction comes out as -65535/65536, not exactly -1
    assert_eq!(cam.rot.elems[0], [S, 0, 0, 0]);
    assert_eq!(cam.rot.elems[1], [0, S - 1, 0, 0]);
    assert_eq!(cam.rot.elems[2], [0, 0, S - 1, 0]);
}

#[test]
fn seeded_rng_is_reproducible() {
    let mut a = Rng::seeded(7);
    let mut b = Rng::seeded(7);
    for _ in 0..32 {
        assert_eq!(a.next_unit(), b.next_unit());
    }
}

#[test]
fn rng_draws_stay_in_unit_range() {
    let mut seeded = Rng::seeded(1234);
    let mut entropy = Rng::from_entropy();
    for _ in 0..64 {
        let d = seeded.next_unit();
        assert!((0..S).contains(&d));
        let e = entropy.next_unit();
        assert!((0..S).contains(&e));
    }
}

#[test]
fn random_unit_cube_vectors_stay_in_bounds() {
    let mut rng = Rng::from_entropy();
    for _ in 0..32 {
        let c = Vec3::random_vector_in_unit_cube(&mut rng);
        assert!(-S <= c.x && c.x < S);
        assert!(-S <= c.y && c.y < S);
        assert!(-S <= c.z && c.z < S);
    }
}

#[test]
fn sampling_is_reproducible_with_a_seed() {
    let n = v(0, 0, S);
    let mut a = Rng::seeded(99);
    let mut b = Rng::seeded(99);
    for _ in 0..8 {
        assert_eq!(
            Vec3::cosine_weighted_hemisphere(&n, &mut a),
            Vec3::cosine_weighted_hemisphere(&n, &mut b)
        );
        assert_eq!(
            Vec3::random_unit_vector(&mut a),
            Vec3::random_unit_vector(&mut b)
        );
    }
}

#[test]
fn unit_vectors_are_roughly_unit_length() {
    // normalizing a draw from deep inside the unit ball can lose a lot of
    // precision, so this only guards against wild blowups
    let mut rng = Rng::from_entropy();
    for _ in 0..32 {
        let u = Vec3::random_unit_vector(&mut rng);
        let norm = u.norm();
        assert!(norm <= 2 * S, "norm {} too large", norm);
    }
}

#[test]
fn hemisphere_vectors_face_the_normal() {
    let mut rng = Rng::from_entropy();
    let n = v(0, 0, S);
    for _ in 0..32 {
        let h = Vec3::random_vector_in_hemisphere(&n, &mut rng);
        assert!(n.dot(&h) >= 0);
    }
}
