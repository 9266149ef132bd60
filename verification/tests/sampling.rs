use raytracing_in_one_weekend::rng::Rng;
use raytracing_in_one_weekend::util::{
    is_near_zero, rand_in_unit_disc, rand_in_unit_sphere, rand_on_unit_sphere, rand_unit_scalar,
};

use glam::Vec3;

#[test]
fn generator_is_reproducible_from_its_seed() {
    let mut a = Rng::from_seed(99);
    let mut b = Rng::from_seed(99);
    for _ in 0..100 {
        assert_eq!(a.next_u32(), b.next_u32());
    }
    let mut c = Rng::from_seed(100);
    let mut differs = false;
    let mut a2 = Rng::from_seed(99);
    for _ in 0..10 {
        if a2.next_u32() != c.next_u32() {
            differs = true;
        }
    }
    assert!(differs);
}

#[test]
fn zero_seed_is_replaced() {
    let mut rng = Rng::from_seed(0);
    assert_ne!(rng.state, 0);
    let first = rng.next_u32();
    let mut again = Rng::from_seed(0);
    assert_eq!(first, again.next_u32());
}

#[test]
fn unit_scalars_fill_the_half_open_interval() {
    let mut rng = Rng::from_seed(4);
    let mut low = 1.0f32;
    let mut high = 0.0f32;
    for _ in 0..2000 {
        let u = rand_unit_scalar(&mut rng).rep.x;
        assert!((0.0..1.0).contains(&u));
        low = low.min(u);
        high = high.max(u);
    }
    assert!(low < 0.1);
    assert!(high > 0.9);
}

#[test]
fn ball_points_stay_inside_the_unit_ball() {
    let mut rng = Rng::from_seed(8);
    for _ in 0..500 {
        let p = rand_in_unit_sphere(&mut rng);
        assert!(p.length_squared() < 1.0);
    }
}

#[test]
fn sphere_points_have_unit_length() {
    let mut rng = Rng::from_seed(15);
    let mut hemispheres = [0u32, 0];
    for _ in 0..500 {
        let p = rand_on_unit_sphere(&mut rng);
        assert!((p.length() - 1.0).abs() < 1.0e-4);
        hemispheres[if p.z < 0.0 { 0 } else { 1 }] += 1;
    }
    assert!(hemispheres[0] > 100 && hemispheres[1] > 100);
}

#[test]
fn disc_points_stay_inside_the_unit_disc() {
    let mut rng = Rng::from_seed(16);
    for _ in 0..500 {
        let (x, y) = rand_in_unit_disc(&mut rng);
        assert!(x.rep.x * x.rep.x + y.rep.x * y.rep.x < 1.0);
    }
}

#[test]
fn near_zero_tells_tiny_vectors_apart() {
    assert!(is_near_zero(Vec3::ZERO));
    assert!(is_near_zero(Vec3::splat(1.0e-9)));
    assert!(!is_near_zero(Vec3::new(1.0e-3, 0.0, 0.0)));
    assert!(!is_near_zero(Vec3::new(0.0, 0.0, 1.0)));
}
