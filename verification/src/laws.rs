use vstd::prelude::*;

use crate::camera::Camera;
use crate::materials::{
    dielectric_scatter_spec, lambertian_scatter_spec, metal_direction_spec, metal_scatter_spec,
    DielectricMaterial, LambertianMaterial, MetalMaterial,
};
use crate::math::{i_to_s, s_lt, v3_div, v3_dot, v3_neg, v3_sub};
use crate::ray::Ray;
use crate::render::{background_spec, radiance_spec, render_pixel_spec, t_max_spec, t_min_spec};
use crate::sphere::{root_in_range_spec, sphere_raycast_spec, Sphere};
use crate::surface::SurfaceIntersection;
use crate::world::{world_raycast_spec, world_scan_spec};

verus! {

/// Every intersection a sphere reports is oriented against the ray: its
/// parameter lies in the queried interval, its `facing` flag is the sign
/// test of the ray direction against the outward normal
/// `(p - center) / radius`, and its normal is that outward normal kept
/// when the flag holds and negated otherwise.
pub proof fn lemma_hit_is_oriented(s: Sphere, r: Ray, t_min: glam::Vec3, t_max: glam::Vec3)
    requires
        sphere_raycast_spec(s, r, t_min, t_max) is Some,
    ensures
        ({
            let hit = sphere_raycast_spec(s, r, t_min, t_max)->Some_0;
            let outward = v3_div(v3_sub(r.at_spec(hit.t.rep), s.center), s.radius.rep);
            &&& root_in_range_spec(hit.t.rep, t_min, t_max)
            &&& hit.facing == s_lt(v3_dot(r.direction, outward), i_to_s(0))
            &&& hit.normal == if hit.facing {
                outward
            } else {
                v3_neg(outward)
            }
        }),
{
}

/// A scan over spheres that all miss the ray reports whatever was
/// carried in, without shrinking the interval.
pub proof fn lemma_scan_of_misses(
    spheres: Seq<Sphere>,
    r: Ray,
    t_min: glam::Vec3,
    nearest: glam::Vec3,
    acc: Option<SurfaceIntersection>,
)
    requires
        forall|i: int|
            0 <= i < spheres.len() ==> #[trigger] sphere_raycast_spec(
                spheres[i],
                r,
                t_min,
                nearest,
            ) is None,
    ensures
        world_scan_spec(spheres, r, t_min, nearest, acc) == acc,
    decreases spheres.len(),
{
    if spheres.len() > 0 {
        assert(sphere_raycast_spec(spheres[0], r, t_min, nearest) is None);
        assert forall|i: int| 0 <= i < spheres.skip(1).len() implies #[trigger] sphere_raycast_spec(
            spheres.skip(1)[i],
            r,
            t_min,
            nearest,
        ) is None by {
            assert(spheres.skip(1)[i] == spheres[i + 1]);
        }
        lemma_scan_of_misses(spheres.skip(1), r, t_min, nearest, acc);
    }
}

/// A ray that misses every sphere sees exactly the background color, at
/// any positive bounce budget, and draws nothing from the generator: no
/// stochastic material path is taken.
pub proof fn lemma_miss_is_background(spheres: Seq<Sphere>, r: Ray, depth: u32, state: u64)
    requires
        depth >= 1,
        forall|i: int|
            0 <= i < spheres.len() ==> #[trigger] sphere_raycast_spec(
                spheres[i],
                r,
                t_min_spec(),
                t_max_spec(),
            ) is None,
    ensures
        radiance_spec(spheres, r, depth, state) == (background_spec(r), state),
{
    lemma_scan_of_misses(
        spheres,
        r,
        t_min_spec(),
        t_max_spec(),
        None::<SurfaceIntersection>,
    );
    assert(world_raycast_spec(spheres, r, t_min_spec(), t_max_spec()) is None);
}

/// Lambertian scattering never absorbs.
pub proof fn lemma_lambertian_never_absorbs(
    m: LambertianMaterial,
    hit: SurfaceIntersection,
    state: u64,
)
    ensures
        lambertian_scatter_spec(m, hit, state).0 is Some,
{
}

/// Dielectric scattering never absorbs.
pub proof fn lemma_dielectric_never_absorbs(
    m: DielectricMaterial,
    r: Ray,
    hit: SurfaceIntersection,
    state: u64,
)
    ensures
        dielectric_scatter_spec(m, r, hit, state).0 is Some,
{
}

/// Metal scattering absorbs exactly when the perturbed mirror direction
/// fails to leave the surface: when its dot product with the oriented
/// normal is not positive.
pub proof fn lemma_metal_absorbs_iff(
    m: MetalMaterial,
    r: Ray,
    hit: SurfaceIntersection,
    state: u64,
)
    ensures
        metal_scatter_spec(m, r, hit, state).0 is None <==> !s_lt(
            i_to_s(0),
            v3_dot(metal_direction_spec(m, r, hit, state), hit.normal),
        ),
{
}

/// Rendering is a function of scene, camera, image geometry, sample
/// count, bounce budget and seed alone: any two pixel buffers that obey
/// the renderer's contract for the same arguments are identical, so a
/// repeated render reproduces its output byte for byte.
pub proof fn lemma_render_is_reproducible(
    spheres: Seq<Sphere>,
    cam: Camera,
    w: u32,
    h: u32,
    samples: u32,
    depth: u32,
    seed: u64,
    first: Seq<(u8, u8, u8)>,
    second: Seq<(u8, u8, u8)>,
)
    requires
        first.len() == w as int * h as int,
        second.len() == w as int * h as int,
        forall|k: int|
            0 <= k < first.len() ==> first[k] == #[trigger] render_pixel_spec(
                spheres,
                cam,
                (k % (w as int)) as u32,
                (h as int - 1 - k / (w as int)) as u32,
                w,
                h,
                samples,
                depth,
                seed,
            ),
        forall|k: int|
            0 <= k < second.len() ==> second[k] == #[trigger] render_pixel_spec(
                spheres,
                cam,
                (k % (w as int)) as u32,
                (h as int - 1 - k / (w as int)) as u32,
                w,
                h,
                samples,
                depth,
                seed,
            ),
    ensures
        first == second,
{
    assert forall|k: int| 0 <= k < first.len() implies first[k] == second[k] by {
        let p = render_pixel_spec(
            spheres,
            cam,
            (k % (w as int)) as u32,
            (h as int - 1 - k / (w as int)) as u32,
            w,
            h,
            samples,
            depth,
            seed,
        );
        assert(first[k] == p);
        assert(second[k] == p);
    }
    assert(first =~= second);
}

} // verus!
