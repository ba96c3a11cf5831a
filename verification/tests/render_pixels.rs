use pathtracer::fx::FX_ONE;
use pathtracer::material::{Material, N_AIR};
use pathtracer::render::{
    pixel_shader, trace_path, validate_config, Camera, ConfigError, Context, Primitive, Ray, Rgb8,
};
use pathtracer::rng::Rng;
use pathtracer::scene::{Plane, Scene, Sphere};
use pathtracer::vector::Vec3;

const S: i64 = FX_ONE;

fn v(x: i64, y: i64, z: i64) -> Vec3 {
    Vec3 { x, y, z }
}

fn black_material() -> Material {
    // fully absorptive and non-emissive
    Material {
        albedo: v(0, 0, 0),
        specular: v(0, 0, 0),
        specularity: 0,
        emissive: v(0, 0, 0),
        roughness: S,
        fresnel_0: 0,
        transparency: 0,
        n: 0,
    }
}

fn light_material(emissive: Vec3) -> Material {
    Material { emissive, ..black_material() }
}

fn facing_camera_context(mat: Material) -> Context {
    let scene = Scene {
        objects: vec![Primitive::Plane(Plane { normal: v(0, 0, S), pos: v(0, 0, 0), mat })],
    };
    Context { scene, width: 2, height: 2, camera: Camera::new(v(0, 0, 5 * S), v(0, 0, 0), S) }
}

#[test]
fn all_black_scene_renders_black() {
    let mut ctx = facing_camera_context(black_material());
    ctx.scene.objects.push(Primitive::Sphere(Sphere {
        centre: v(0, 0, 2 * S),
        radius: S,
        mat: black_material(),
    }));
    let mut rng = Rng::from_entropy();
    for i in 0..2 {
        for j in 0..2 {
            let px = pixel_shader(&ctx, i, j, 4, 16, &mut rng);
            assert_eq!(px, Rgb8 { r: 0, g: 0, b: 0 });
        }
    }
}

#[test]
fn emissive_plane_saturates_to_white() {
    let ctx = facing_camera_context(light_material(v(3 * S, 3 * S, 3 * S)));
    let mut rng = Rng::from_entropy();
    let px = pixel_shader(&ctx, 0, 0, 3, 8, &mut rng);
    assert_eq!(px, Rgb8 { r: 255, g: 255, b: 255 });
}

#[test]
fn emissive_plane_mid_gray_is_exact() {
    // emission of one half maps to floor(255 * 0.5) = 127 per channel
    let ctx = facing_camera_context(light_material(v(S / 2, S / 2, S / 2)));
    let mut rng = Rng::from_entropy();
    let px = pixel_shader(&ctx, 1, 1, 2, 4, &mut rng);
    assert_eq!(px, Rgb8 { r: 127, g: 127, b: 127 });
}

#[test]
fn seeded_render_is_bit_identical() {
    let ctx = facing_camera_context(Material {
        albedo: v(S / 2, S / 2, S / 2),
        emissive: v(S / 4, S / 3, S / 2),
        roughness: S / 2,
        specularity: S / 4,
        specular: v(S, S, S),
        fresnel_0: S / 10,
        transparency: 0,
        n: 0,
    });
    for seed in [0u64, 1, 42, 0xdead_beef] {
        let mut rng_a = Rng::seeded(seed);
        let mut rng_b = Rng::seeded(seed);
        for i in 0..2 {
            for j in 0..2 {
                let a = pixel_shader(&ctx, i, j, 5, 32, &mut rng_a);
                let b = pixel_shader(&ctx, i, j, 5, 32, &mut rng_b);
                assert_eq!(a, b);
            }
        }
    }
}

#[test]
fn gathered_radiance_is_never_negative() {
    let light = light_material(v(2 * S, 2 * S, 2 * S));
    let gray = Material {
        albedo: v(S / 2, S / 2, S / 2),
        specular: v(S, S, S),
        specularity: S / 4,
        emissive: v(0, 0, 0),
        roughness: S / 2,
        fresnel_0: S / 10,
        transparency: 0,
        n: 0,
    };
    let scene = Scene {
        objects: vec![
            Primitive::Plane(Plane { normal: v(0, S, 0), pos: v(0, -S, 0), mat: gray }),
            Primitive::Sphere(Sphere { centre: v(0, 2 * S, -3 * S), radius: S, mat: light }),
            Primitive::Sphere(Sphere { centre: v(0, 0, -3 * S), radius: S, mat: gray }),
        ],
    };
    let mut rng = Rng::from_entropy();
    for _ in 0..16 {
        let ray = Ray {
            origin: v(0, 0, 5 * S),
            dir: v(0, 0, -S),
            color: Vec3::one(),
            emitted: Vec3::zero(),
            n: N_AIR,
        };
        let traced = trace_path(&scene, ray, 6, &mut rng);
        assert!(traced.emitted.x >= 0);
        assert!(traced.emitted.y >= 0);
        assert!(traced.emitted.z >= 0);
        assert!(traced.color.x >= 0);
        assert!(traced.color.y >= 0);
        assert!(traced.color.z >= 0);
    }
}

#[test]
fn config_rejects_each_zero_with_its_error() {
    assert_eq!(validate_config(0, 10, 5, 100), Err(ConfigError::ZeroWidth));
    assert_eq!(validate_config(10, 0, 5, 100), Err(ConfigError::ZeroHeight));
    assert_eq!(validate_config(10, 10, 0, 100), Err(ConfigError::ZeroBounces));
    assert_eq!(validate_config(10, 10, 5, 0), Err(ConfigError::ZeroSamples));
    assert_eq!(validate_config(10, 10, 5, 100), Ok(()));
}
