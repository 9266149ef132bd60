use glam::Vec3;

use raytracing_in_one_weekend::materials::{LambertianMaterial, Material};
use raytracing_in_one_weekend::math::Scalar;
use raytracing_in_one_weekend::ray::Ray;
use raytracing_in_one_weekend::sphere::Sphere;
use raytracing_in_one_weekend::world::World;

fn scalar(x: f32) -> Scalar {
    Scalar { rep: Vec3::splat(x) }
}

fn gray() -> Material {
    Material::Lambertian(LambertianMaterial::new(Vec3::splat(0.5)))
}

#[test]
fn sphere_straight_on_hit() {
    let sphere = Sphere::new(Vec3::new(0.0, 0.0, -1.0), scalar(0.5), gray());
    let ray = Ray::new(Vec3::new(0.0, 0.0, 0.0), Vec3::new(0.0, 0.0, -1.0));
    let hit = sphere.raycast(&ray, scalar(0.0), scalar(100.0)).unwrap();
    assert_eq!(hit.t.rep.x, 0.5);
    assert_eq!(hit.p, Vec3::new(0.0, 0.0, -0.5));
    assert_eq!(hit.normal, Vec3::new(0.0, 0.0, 1.0));
    assert!(hit.facing);
}

#[test]
fn sphere_hit_point_lies_on_sphere() {
    let centers = [
        Vec3::new(0.0, 0.0, 0.0),
        Vec3::new(1.5, -2.0, 4.0),
        Vec3::new(-3.0, 0.25, -7.5),
    ];
    let radii = [1.7f32, 0.3, 2.5];
    let origins = [Vec3::new(1.0, 2.0, 13.0), Vec3::new(-5.0, 1.0, 9.0)];
    let directions = [Vec3::new(-0.1, -0.2, -1.0), Vec3::new(0.3, -0.31, -2.0)];
    for (&center, &radius) in centers.iter().zip(radii.iter()) {
        let sphere = Sphere::new(center, scalar(radius), gray());
        for &origin in origins.iter() {
            for &direction in directions.iter() {
                let ray = Ray::new(origin, direction);
                if let Some(hit) = sphere.raycast(&ray, scalar(0.001), scalar(1.0e9)) {
                    let dist = (ray.origin + ray.direction * hit.t.rep.x - center).length();
                    assert!((dist - radius).abs() < 1.0e-3, "distance {dist} vs {radius}");
                    assert!((hit.normal.length() - 1.0).abs() < 1.0e-4);
                    assert!(hit.normal.dot(ray.direction) <= 0.0);
                }
            }
        }
    }
}

#[test]
fn sphere_normal_faces_ray_from_inside() {
    let sphere = Sphere::new(Vec3::ZERO, scalar(2.0), gray());
    let ray = Ray::new(Vec3::ZERO, Vec3::new(0.0, 0.0, -1.0));
    let hit = sphere.raycast(&ray, scalar(0.001), scalar(100.0)).unwrap();
    assert_eq!(hit.t.rep.x, 2.0);
    assert!(!hit.facing);
    assert_eq!(hit.normal, Vec3::new(0.0, 0.0, 1.0));
    assert!(hit.normal.dot(ray.direction) <= 0.0);
}

#[test]
fn hollow_sphere_negative_radius_flips_outward_normal() {
    let sphere = Sphere::new(Vec3::new(0.0, 0.0, -3.0), scalar(-1.0), gray());
    let ray = Ray::new(Vec3::ZERO, Vec3::new(0.0, 0.0, -1.0));
    let hit = sphere.raycast(&ray, scalar(0.001), scalar(100.0)).unwrap();
    assert_eq!(hit.t.rep.x, 2.0);
    assert!(!hit.facing);
    assert_eq!(hit.normal, Vec3::new(0.0, 0.0, 1.0));
    assert!((hit.normal.length() - 1.0).abs() < 1.0e-6);
    assert!(hit.normal.dot(ray.direction) <= 0.0);
}

#[test]
fn sphere_miss_returns_nothing() {
    let sphere = Sphere::new(Vec3::new(0.0, 0.0, -5.0), scalar(1.0), gray());
    let ray = Ray::new(Vec3::new(0.0, 3.0, 0.0), Vec3::new(0.0, 0.0, -1.0));
    assert!(sphere.raycast(&ray, scalar(0.001), scalar(1.0e9)).is_none());
    let away = Ray::new(Vec3::ZERO, Vec3::new(0.0, 0.0, 1.0));
    assert!(sphere.raycast(&away, scalar(0.001), scalar(1.0e9)).is_none());
}

#[test]
fn sphere_tangent_ray_reports_single_root() {
    let sphere = Sphere::new(Vec3::new(0.0, 0.0, -5.0), scalar(1.0), gray());
    let ray = Ray::new(Vec3::new(1.0, 0.0, 0.0), Vec3::new(0.0, 0.0, -1.0));
    let hit = sphere.raycast(&ray, scalar(0.001), scalar(1.0e9)).unwrap();
    assert!((hit.t.rep.x - 5.0).abs() < 1.0e-3);
}

#[test]
fn sphere_prefers_smaller_root_and_respects_t_min() {
    let sphere = Sphere::new(Vec3::new(0.0, 0.0, -5.0), scalar(1.0), gray());
    let ray = Ray::new(Vec3::ZERO, Vec3::new(0.0, 0.0, -1.0));
    let near = sphere.raycast(&ray, scalar(0.001), scalar(100.0)).unwrap();
    assert_eq!(near.t.rep.x, 4.0);
    assert!(near.facing);
    let far = sphere.raycast(&ray, scalar(4.5), scalar(100.0)).unwrap();
    assert_eq!(far.t.rep.x, 6.0);
    assert!(!far.facing);
    assert!(sphere.raycast(&ray, scalar(6.5), scalar(100.0)).is_none());
}

#[test]
fn ray_at_walks_the_parameter() {
    let ray = Ray::new(Vec3::new(1.0, 2.0, 3.0), Vec3::new(0.5, 0.0, -1.0));
    assert_eq!(ray.at(scalar(0.0)), Vec3::new(1.0, 2.0, 3.0));
    assert_eq!(ray.at(scalar(2.0)), Vec3::new(2.0, 2.0, 1.0));
}

#[test]
fn world_reports_nearest_hit_in_any_insertion_order() {
    let near = Sphere::new(Vec3::new(0.0, 0.0, -2.0), scalar(0.5), gray());
    let far = Sphere::new(Vec3::new(0.0, 0.0, -5.0), scalar(0.5), gray());
    let ray = Ray::new(Vec3::ZERO, Vec3::new(0.0, 0.0, -1.0));

    let mut world_a = World::new();
    world_a.surfaces.push(near);
    world_a.surfaces.push(far);
    let mut world_b = World::new();
    world_b.surfaces.push(far);
    world_b.surfaces.push(near);

    let hit_a = world_a.raycast(&ray, scalar(0.001), scalar(1.0e9)).unwrap();
    let hit_b = world_b.raycast(&ray, scalar(0.001), scalar(1.0e9)).unwrap();
    assert_eq!(hit_a.t.rep.x, 1.5);
    assert_eq!(hit_b.t.rep.x, 1.5);
    assert_eq!(hit_a.p, hit_b.p);
    assert_eq!(hit_a.normal, hit_b.normal);
}

#[test]
fn coincident_spheres_tie_keeps_the_earlier_insertion() {
    // Two identical spheres with different surfaces: a later candidate is
    // accepted only if strictly closer, so the tie keeps the first record
    // whichever way the spheres are ordered relative to the ray.
    let lambertian = Material::Lambertian(LambertianMaterial::new(Vec3::ONE));
    let metal = Material::Metal(raytracing_in_one_weekend::materials::MetalMaterial::new(
        Vec3::ONE,
        scalar(0.0),
    ));
    let mut world = World::new();
    world.surfaces.push(Sphere::new(Vec3::new(0.0, 0.0, -2.0), scalar(0.5), lambertian));
    world.surfaces.push(Sphere::new(Vec3::new(0.0, 0.0, -2.0), scalar(0.5), metal));
    let ray = Ray::new(Vec3::ZERO, Vec3::new(0.0, 0.0, -1.0));
    let hit = world.raycast(&ray, scalar(0.001), scalar(100.0)).unwrap();
    assert_eq!(hit.t.rep.x, 1.5);
    assert!(matches!(hit.material, Material::Lambertian(_)));
}

#[test]
fn empty_world_misses_everything() {
    let world = World::new();
    let ray = Ray::new(Vec3::ZERO, Vec3::new(0.0, 1.0, 0.0));
    assert!(world.raycast(&ray, scalar(0.001), scalar(1.0e9)).is_none());
}
