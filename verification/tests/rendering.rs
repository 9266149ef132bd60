use glam::Vec3;

use raytracing_in_one_weekend::camera::Camera;
use raytracing_in_one_weekend::materials::{
    DielectricMaterial, LambertianMaterial, Material, MetalMaterial,
};
use raytracing_in_one_weekend::math::Scalar;
use raytracing_in_one_weekend::ppm::ppm_image_bytes;
use raytracing_in_one_weekend::ray::Ray;
use raytracing_in_one_weekend::render::{
    background, raycast, render_image, render_pixel, resolve_color, sample_pixel,
};
use raytracing_in_one_weekend::rng::Rng;
use raytracing_in_one_weekend::sphere::Sphere;
use raytracing_in_one_weekend::world::World;

fn scalar(x: f32) -> Scalar {
    Scalar { rep: Vec3::splat(x) }
}

fn three_material_world() -> World {
    let mut world = World::new();
    world.surfaces.push(Sphere::new(
        Vec3::new(0.0, -100.5, -1.0),
        scalar(100.0),
        Material::Lambertian(LambertianMaterial::new(Vec3::new(0.8, 0.8, 0.0))),
    ));
    world.surfaces.push(Sphere::new(
        Vec3::new(0.0, 0.0, -1.0),
        scalar(0.5),
        Material::Lambertian(LambertianMaterial::new(Vec3::new(0.1, 0.2, 0.5))),
    ));
    world.surfaces.push(Sphere::new(
        Vec3::new(-1.0, 0.0, -1.0),
        scalar(0.5),
        Material::Dielectric(DielectricMaterial::new(scalar(1.5))),
    ));
    world.surfaces.push(Sphere::new(
        Vec3::new(1.0, 0.0, -1.0),
        scalar(0.5),
        Material::Metal(MetalMaterial::new(Vec3::new(0.8, 0.6, 0.2), scalar(0.3))),
    ));
    world
}

fn test_camera() -> Camera {
    Camera::new(
        Vec3::ZERO,
        Vec3::new(0.0, 0.0, -1.0),
        Vec3::Y,
        scalar(90.0),
        scalar(2.0),
        scalar(0.0),
        scalar(1.0),
    )
}

#[test]
fn background_blends_horizon_to_sky() {
    let up = background(&Ray::new(Vec3::ZERO, Vec3::new(0.0, 1.0, 0.0)));
    assert!((up - Vec3::new(0.5, 0.7, 1.0)).length() < 1.0e-4);
    let down = background(&Ray::new(Vec3::ZERO, Vec3::new(0.0, -1.0, 0.0)));
    assert!((down - Vec3::ONE).length() < 1.0e-4);
    let level = background(&Ray::new(Vec3::ZERO, Vec3::new(1.0, 0.0, 0.0)));
    assert!((level - Vec3::new(0.75, 0.85, 1.0)).length() < 1.0e-4);
}

#[test]
fn exhausted_bounce_budget_is_black() {
    let world = three_material_world();
    let ray = Ray::new(Vec3::ZERO, Vec3::new(0.0, 0.0, -1.0));
    let mut rng = Rng::from_seed(5);
    let state_before = rng.state;
    let color = raycast(&world, &ray, 0, &mut rng);
    assert_eq!(color, Vec3::ZERO);
    assert_eq!(rng.state, state_before);
}

#[test]
fn ray_that_misses_everything_sees_the_background() {
    let world = three_material_world();
    // All spheres sit at negative z; this ray walks away from them.
    let ray = Ray::new(Vec3::new(0.0, 2.0, 5.0), Vec3::new(0.0, 1.0, 1.0));
    let expected = background(&ray);
    for depth in [1u32, 2, 5, 50].iter() {
        for seed in [1u64, 9, 77].iter() {
            let mut rng = Rng::from_seed(*seed);
            let state_before = rng.state;
            let color = raycast(&world, &ray, *depth, &mut rng);
            assert_eq!(color, expected);
            assert_eq!(rng.state, state_before, "no stochastic path may be taken");
        }
    }
}

#[test]
fn radiance_is_attenuated_through_bounces() {
    let world = three_material_world();
    let ray = Ray::new(Vec3::ZERO, Vec3::new(0.0, 0.0, -1.0));
    let mut rng = Rng::from_seed(13);
    let color = raycast(&world, &ray, 8, &mut rng);
    // The center sphere is a dim blue-ish Lambertian: whatever path the
    // draw takes, each channel stays within the attenuation budget.
    assert!(color.x >= 0.0 && color.y >= 0.0 && color.z >= 0.0);
    assert!(color.x <= 1.0 && color.y <= 1.0 && color.z <= 1.0);
}

#[test]
fn sample_pixel_with_no_samples_is_black() {
    let world = three_material_world();
    let camera = test_camera();
    let mut rng = Rng::from_seed(21);
    let sum = sample_pixel(&world, &camera, 3, 2, 8, 4, 0, 5, &mut rng);
    assert_eq!(sum, Vec3::ZERO);
}

#[test]
fn sample_pixel_accumulates_over_samples() {
    let world = three_material_world();
    let camera = test_camera();
    let mut rng_all = Rng::from_seed(21);
    let sum = sample_pixel(&world, &camera, 3, 2, 8, 4, 6, 5, &mut rng_all);
    // Replaying the same generator one sample at a time gives the same sum.
    let mut rng_steps = Rng::from_seed(21);
    let mut acc = Vec3::ZERO;
    for _ in 0..6 {
        acc += sample_pixel(&world, &camera, 3, 2, 8, 4, 1, 5, &mut rng_steps);
    }
    assert_eq!(sum, acc);
    assert_eq!(rng_all.state, rng_steps.state);
}

#[test]
fn mirror_bounce_tints_the_background() {
    // A fuzz-free metal mirror: the one bounce is deterministic, so the
    // radiance is exactly the albedo times the background of the
    // mirrored ray, whatever the seed.
    let albedo = Vec3::new(0.9, 0.8, 0.7);
    let mut world = World::new();
    world.surfaces.push(Sphere::new(
        Vec3::new(0.0, 0.0, -2.0),
        scalar(1.0),
        Material::Metal(MetalMaterial::new(albedo, scalar(0.0))),
    ));
    let ray = Ray::new(Vec3::ZERO, Vec3::new(0.0, 0.0, -1.0));
    let bounced = Ray::new(Vec3::new(0.0, 0.0, -1.0), Vec3::new(0.0, 0.0, 1.0));
    let expected = albedo * background(&bounced);
    for seed in [1u64, 2, 3] {
        let mut rng = Rng::from_seed(seed);
        let color = raycast(&world, &ray, 5, &mut rng);
        assert_eq!(color, expected);
    }
}

#[test]
fn one_pixel_image_renders_without_trouble() {
    let world = three_material_world();
    let camera = test_camera();
    let pixels = render_image(&world, &camera, 1, 1, 2, 3, 5);
    assert_eq!(pixels.len(), 1);
    assert_eq!(pixels, render_image(&world, &camera, 1, 1, 2, 3, 5));
}

#[test]
fn resolve_color_averages_and_gamma_corrects() {
    let resolved = resolve_color(Vec3::new(4.0, 1.0, 0.0), 4);
    assert_eq!(resolved, Vec3::new(0.999, 0.5, 0.0));
}

#[test]
fn render_is_idempotent_for_a_fixed_seed() {
    let world = three_material_world();
    let camera = test_camera();
    let first = render_image(&world, &camera, 6, 4, 3, 4, 42);
    let second = render_image(&world, &camera, 6, 4, 3, 4, 42);
    assert_eq!(first, second);
    let bytes_first = ppm_image_bytes(6, 4, &first);
    let bytes_second = ppm_image_bytes(6, 4, &second);
    assert_eq!(bytes_first, bytes_second);
}

#[test]
fn render_image_maps_pixels_row_major_top_down() {
    let world = three_material_world();
    let camera = test_camera();
    let (w, h) = (5u32, 3u32);
    let pixels = render_image(&world, &camera, w, h, 2, 3, 9);
    assert_eq!(pixels.len(), (w * h) as usize);
    for k in 0..pixels.len() as u32 {
        let x = k % w;
        let y = h - 1 - k / w;
        let direct = render_pixel(&world, &camera, x, y, w, h, 2, 3, 9);
        assert_eq!(pixels[k as usize], direct, "pixel {k}");
    }
}

#[test]
fn more_samples_shrink_the_pixel_variance() {
    // The same pixel rendered with fresh seeds scatters around its true
    // color; averaging more samples per run must shrink that scatter.
    let world = three_material_world();
    let camera = test_camera();
    let variance_of = |samples: u32| -> f64 {
        let mut values: Vec<f64> = Vec::new();
        for seed in 1..=40u64 {
            let mut rng = Rng::from_seed(seed);
            let sum = sample_pixel(&world, &camera, 3, 1, 8, 4, samples, 3, &mut rng);
            let mean = (sum.x + sum.y + sum.z) as f64 / (3 * samples) as f64;
            values.push(mean);
        }
        let n = values.len() as f64;
        let mean = values.iter().sum::<f64>() / n;
        values.iter().map(|v| (v - mean) * (v - mean)).sum::<f64>() / (n - 1.0)
    };
    let coarse = variance_of(1);
    let medium = variance_of(8);
    let fine = variance_of(64);
    assert!(coarse > 0.0);
    assert!(medium < coarse, "{medium} vs {coarse}");
    assert!(fine < medium, "{fine} vs {medium}");
}

#[test]
fn pixels_are_independent_of_their_neighbors() {
    let world = three_material_world();
    let camera = test_camera();
    // The same pixel rendered alone or within a full image is identical:
    // its generator is seeded from the render seed and its coordinates.
    let wide = render_image(&world, &camera, 4, 2, 2, 3, 1234);
    let p_lone = render_pixel(&world, &camera, 2, 0, 4, 2, 2, 3, 1234);
    assert_eq!(wide[(1 * 4 + 2) as usize], p_lone);
}
