use vstd::prelude::*;

use crate::camera::{create_ray_spec, Camera};
use crate::math::{
    half, half_spec, i_to_s, normalize, normalize_spec, one_vec_spec, s_lt, s_sqrt, s_trunc,
    s_to_i32, scale, scale_spec, slt, ssqrt, v3_add, v3_div, v3_mul, v3_of, v3_sub, v3_x, v3_y,
    v3_z, vadd, vadd_s, vdiv_s, vmul, vmul_s, vnew, vsub_s, vx, vy, vz, zero_vec, zero_vec_spec,
    one_vec, Scalar,
};
use crate::ray::Ray;
use crate::rng::{seed_state, xorshift_step, Rng};
use crate::sphere::Sphere;
use crate::util::unit_scalar_spec;
use crate::world::{world_raycast_spec, World};

verus! {

/// The lower parameter bound of every scene query: a small positive
/// value, so a bounced ray cannot re-hit its own origin.
pub open spec fn t_min_spec() -> glam::Vec3 {
    v3_div(i_to_s(1), i_to_s(1000))
}

/// The lower parameter bound of every scene query.
pub fn t_min_value() -> (r: Scalar)
    ensures
        r.rep == t_min_spec(),
{
    Scalar::ratio(1, 1000)
}

/// The upper parameter bound of every scene query: the largest finite
/// single-precision value, `(2^24 - 1)·2^104`, built from exact products.
pub open spec fn t_max_spec() -> glam::Vec3 {
    let p13 = i_to_s(8192);
    let p26 = v3_mul(p13, p13);
    let p52 = v3_mul(p26, p26);
    let p104 = v3_mul(p52, p52);
    v3_mul(i_to_s(16777215), p104)
}

/// The upper parameter bound of every scene query.
pub fn t_max_value() -> (r: Scalar)
    ensures
        r.rep == t_max_spec(),
{
    let p13 = Scalar::of(8192);
    let p26 = vmul_s(p13, p13);
    let p52 = vmul_s(p26, p26);
    let p104 = vmul_s(p52, p52);
    vmul_s(Scalar::of(16777215), p104)
}

/// The color of the sky overhead.
pub open spec fn sky_color_spec() -> glam::Vec3 {
    v3_of(half_spec(), v3_div(i_to_s(7), i_to_s(10)), i_to_s(1))
}

/// The color of the sky at the horizon.
pub open spec fn horizon_color_spec() -> glam::Vec3 {
    one_vec_spec()
}

/// The linear blend `a·(1 - s) + b·s`, as glam computes it.
pub open spec fn lerp_spec(a: glam::Vec3, b: glam::Vec3, s: glam::Vec3) -> glam::Vec3 {
    v3_add(scale_spec(a, v3_sub(i_to_s(1), s)), scale_spec(b, s))
}

/// The linear blend `a·(1 - s) + b·s`.
pub fn lerp(a: glam::Vec3, b: glam::Vec3, s: Scalar) -> (r: glam::Vec3)
    ensures
        r == lerp_spec(a, b, s.rep),
{
    vadd(scale(a, vsub_s(Scalar::of(1), s)), scale(b, s))
}

/// The background a ray that escapes the scene sees: a vertical blend
/// from the horizon color to the sky color, by the normalized direction's
/// height mapped from `[-1, 1]` to `[0, 1]`.
pub open spec fn background_spec(r: Ray) -> glam::Vec3 {
    let dn = normalize_spec(r.direction);
    let t = v3_mul(v3_add(v3_y(dn), i_to_s(1)), half_spec());
    lerp_spec(horizon_color_spec(), sky_color_spec(), t)
}

/// The background color a ray that hits nothing contributes.
pub fn background(ray: &Ray) -> (c: glam::Vec3)
    ensures
        c == background_spec(*ray),
{
    let dn = normalize(ray.direction);
    let t = vmul_s(vadd_s(Scalar { rep: vy(dn) }, Scalar::of(1)), half());
    let sky = vnew(half().rep, Scalar::ratio(7, 10).rep, Scalar::of(1).rep);
    lerp(one_vec(), sky, t)
}

/// The Monte-Carlo radiance estimate of one ray: black once the bounce
/// budget is spent; the background when nothing is hit; otherwise the
/// scattered ray's radiance attenuated by the material, or black when the
/// material absorbs.  The generator state is threaded through.
pub open spec fn radiance_spec(spheres: Seq<Sphere>, r: Ray, depth: u32, state: u64) -> (
    glam::Vec3,
    u64,
)
    decreases depth,
{
    if depth == 0 {
        (zero_vec_spec(), state)
    } else {
        match world_raycast_spec(spheres, r, t_min_spec(), t_max_spec()) {
            None => (background_spec(r), state),
            Some(hit) => {
                let scattered = crate::materials::material_scatter_spec(hit.material, r, hit, state);
                match scattered.0 {
                    None => (zero_vec_spec(), scattered.1),
                    Some(outgoing) => {
                        let rec = radiance_spec(spheres, outgoing.1, (depth - 1) as u32, scattered.1);
                        (v3_mul(outgoing.0, rec.0), rec.1)
                    },
                }
            },
        }
    }
}

/// Estimates the radiance a ray carries, bouncing at most `depth` times.
pub fn raycast(world: &World, ray: &Ray, depth: u32, rng: &mut Rng) -> (c: glam::Vec3)
    ensures
        (c, final(rng).state) == radiance_spec(world.surfaces@, *ray, depth, old(rng).state),
    decreases depth,
{
    if depth == 0 {
        return zero_vec();
    }
    match world.raycast(ray, t_min_value(), t_max_value()) {
        Some(intersection) => match intersection.material.scatter(ray, &intersection, rng) {
            Some((attenuation, scattered)) => {
                let rec = raycast(world, &scattered, depth - 1, rng);
                vmul(attenuation, rec)
            },
            None => zero_vec(),
        },
        None => background(ray),
    }
}

/// The sum of `samples` radiance estimates for pixel `(x, y)` of a
/// `w × h` image, each through a sub-pixel jitter of the image-plane
/// coordinates, with the generator state threaded through.
pub open spec fn sample_sum_spec(
    spheres: Seq<Sphere>,
    cam: Camera,
    x: u32,
    y: u32,
    w: u32,
    h: u32,
    samples: u32,
    depth: u32,
    state: u64,
) -> (glam::Vec3, u64)
    decreases samples,
{
    if samples == 0 {
        (zero_vec_spec(), state)
    } else {
        let prev = sample_sum_spec(spheres, cam, x, y, w, h, (samples - 1) as u32, depth, state);
        let s1 = prev.1;
        let u = v3_div(v3_add(i_to_s(x as int), unit_scalar_spec(s1)), i_to_s(w as int - 1));
        let s2 = xorshift_step(s1);
        let v = v3_div(v3_add(i_to_s(y as int), unit_scalar_spec(s2)), i_to_s(h as int - 1));
        let s3 = xorshift_step(s2);
        let ray_draw = create_ray_spec(cam, u, v, s3);
        let rad = radiance_spec(spheres, ray_draw.0, depth, ray_draw.1);
        (v3_add(prev.0, rad.0), rad.1)
    }
}

/// Accumulates `samples` jittered radiance estimates for one pixel.
pub fn sample_pixel(
    world: &World,
    camera: &Camera,
    x: u32,
    y: u32,
    w: u32,
    h: u32,
    samples: u32,
    depth: u32,
    rng: &mut Rng,
) -> (c: glam::Vec3)
    requires
        x < 0x8000_0000,
        y < 0x8000_0000,
        1 <= w <= 0x8000_0000,
        1 <= h <= 0x8000_0000,
    ensures
        (c, final(rng).state) == sample_sum_spec(
            world.surfaces@,
            *camera,
            x,
            y,
            w,
            h,
            samples,
            depth,
            old(rng).state,
        ),
{
    let ghost s0 = rng.state;
    let mut result = zero_vec();
    let mut i: u32 = 0;
    while i < samples
        invariant
            i <= samples,
            x < 0x8000_0000,
            y < 0x8000_0000,
            1 <= w <= 0x8000_0000,
            1 <= h <= 0x8000_0000,
            (result, rng.state) == sample_sum_spec(
                world.surfaces@,
                *camera,
                x,
                y,
                w,
                h,
                i,
                depth,
                s0,
            ),
        decreases samples - i,
    {
        let ju = crate::util::rand_unit_scalar(rng);
        let u = vdiv_s(vadd_s(Scalar::of(x as i32), ju), Scalar::of((w - 1) as i32));
        let jv = crate::util::rand_unit_scalar(rng);
        let v = vdiv_s(vadd_s(Scalar::of(y as i32), jv), Scalar::of((h - 1) as i32));
        let r = camera.create_ray(u, v, rng);
        let c = raycast(world, &r, depth, rng);
        result = vadd(result, c);
        i = i + 1;
    }
    result
}

/// One channel clamped into `[lo, hi]` (left as it is when a comparison
/// is unordered).
pub open spec fn clamp_spec(x: glam::Vec3, lo: glam::Vec3, hi: glam::Vec3) -> glam::Vec3 {
    if s_lt(x, lo) {
        lo
    } else if s_lt(hi, x) {
        hi
    } else {
        x
    }
}

/// A scalar clamped into `[lo, hi]`.
pub fn clamp(x: Scalar, lo: Scalar, hi: Scalar) -> (r: Scalar)
    ensures
        r.rep == clamp_spec(x.rep, lo.rep, hi.rep),
{
    if slt(x, lo) {
        lo
    } else if slt(hi, x) {
        hi
    } else {
        x
    }
}

/// One channel of an accumulated pixel sum resolved for output: averaged
/// over the sample count, gamma-corrected by a square root, and clamped
/// into `[0, 999/1000]`.
pub open spec fn resolve_channel_spec(c: glam::Vec3, samples: glam::Vec3) -> glam::Vec3 {
    clamp_spec(s_sqrt(v3_div(c, samples)), i_to_s(0), v3_div(i_to_s(999), i_to_s(1000)))
}

/// An accumulated pixel sum resolved for output, channel by channel.
pub open spec fn resolve_color_spec(sum: glam::Vec3, samples: glam::Vec3) -> glam::Vec3 {
    v3_of(
        resolve_channel_spec(v3_x(sum), samples),
        resolve_channel_spec(v3_y(sum), samples),
        resolve_channel_spec(v3_z(sum), samples),
    )
}

/// Averages an accumulated pixel sum, applies gamma correction and clamps
/// each channel.
pub fn resolve_color(sum: glam::Vec3, samples: u32) -> (c: glam::Vec3)
    requires
        1 <= samples <= 0x7fff_ffff,
    ensures
        c == resolve_color_spec(sum, i_to_s(samples as int)),
{
    let n = Scalar::of(samples as i32);
    let zero = Scalar::of(0);
    let hi = Scalar::ratio(999, 1000);
    let r = clamp(ssqrt(vdiv_s(Scalar { rep: vx(sum) }, n)), zero, hi);
    let g = clamp(ssqrt(vdiv_s(Scalar { rep: vy(sum) }, n)), zero, hi);
    let b = clamp(ssqrt(vdiv_s(Scalar { rep: vz(sum) }, n)), zero, hi);
    vnew(r.rep, g.rep, b.rep)
}

/// One resolved channel quantized to 8 bits: scaled by 256, truncated,
/// and clamped into `[0, 255]`.
pub open spec fn quantize_spec(ch: glam::Vec3) -> int {
    let t = s_trunc(v3_mul(ch, i_to_s(256)));
    if t < 0 {
        0
    } else if t > 255 {
        255
    } else {
        t
    }
}

/// Quantizes one resolved channel to 8 bits.
pub fn quantize_channel(ch: Scalar) -> (b: u8)
    ensures
        b as int == quantize_spec(ch.rep),
{
    let t = s_to_i32(vmul_s(ch, Scalar::of(256)));
    if t < 0 {
        0u8
    } else if t > 255 {
        255u8
    } else {
        t as u8
    }
}

/// The seed of the generator a pixel's task owns: the render seed mixed
/// with the pixel coordinates, so no two pixels share a stream.
pub open spec fn pixel_seed_spec(seed: u64, x: u32, y: u32) -> u64 {
    seed ^ (((x as u64) << 32) | (y as u64))
}

/// The finished 8-bit color of one pixel: its jittered sample sum,
/// resolved and quantized, from a generator seeded by pixel coordinates.
pub open spec fn render_pixel_spec(
    spheres: Seq<Sphere>,
    cam: Camera,
    x: u32,
    y: u32,
    w: u32,
    h: u32,
    samples: u32,
    depth: u32,
    seed: u64,
) -> (u8, u8, u8) {
    let state = seed_state(pixel_seed_spec(seed, x, y));
    let sum = sample_sum_spec(spheres, cam, x, y, w, h, samples, depth, state);
    let c = resolve_color_spec(sum.0, i_to_s(samples as int));
    (
        quantize_spec(v3_x(c)) as u8,
        quantize_spec(v3_y(c)) as u8,
        quantize_spec(v3_z(c)) as u8,
    )
}

/// Renders one pixel.  A pure function of scene, camera, geometry
/// parameters and seed, so pixels can be rendered in any order or in
/// parallel without changing the image.
pub fn render_pixel(
    world: &World,
    camera: &Camera,
    x: u32,
    y: u32,
    w: u32,
    h: u32,
    samples: u32,
    depth: u32,
    seed: u64,
) -> (p: (u8, u8, u8))
    requires
        x < 0x8000_0000,
        y < 0x8000_0000,
        1 <= w <= 0x8000_0000,
        1 <= h <= 0x8000_0000,
        1 <= samples <= 0x7fff_ffff,
    ensures
        p == render_pixel_spec(world.surfaces@, *camera, x, y, w, h, samples, depth, seed),
{
    let mut rng = Rng::from_seed(seed ^ (((x as u64) << 32) | (y as u64)));
    let sum = sample_pixel(world, camera, x, y, w, h, samples, depth, &mut rng);
    let c = resolve_color(sum, samples);
    let r = quantize_channel(Scalar { rep: vx(c) });
    let g = quantize_channel(Scalar { rep: vy(c) });
    let b = quantize_channel(Scalar { rep: vz(c) });
    (r, g, b)
}

/// Renders the whole image, top row first, pixels left to right.  Element
/// `k` is the pixel at column `k mod w` of row `h - 1 - k div w`, exactly
/// what `render_pixel` yields there: assembly preserves the mapping from
/// pixels to coordinates whatever order the pixels are computed in.
pub fn render_image(
    world: &World,
    camera: &Camera,
    w: u32,
    h: u32,
    samples: u32,
    depth: u32,
    seed: u64,
) -> (pixels: Vec<(u8, u8, u8)>)
    requires
        1 <= w <= 0x7fff_ffff,
        1 <= h <= 0x7fff_ffff,
        w as int * h as int <= 0x7fff_ffff,
        1 <= samples <= 0x7fff_ffff,
    ensures
        pixels@.len() == w as int * h as int,
        forall|k: int|
            0 <= k < pixels@.len() ==> pixels@[k] == render_pixel_spec(
                world.surfaces@,
                *camera,
                (k % (w as int)) as u32,
                (h as int - 1 - k / (w as int)) as u32,
                w,
                h,
                samples,
                depth,
                seed,
            ),
{
    let total: u32 = w * h;
    let mut pixels: Vec<(u8, u8, u8)> = Vec::new();
    let mut k: u32 = 0;
    while k < total
        invariant
            k <= total,
            total == w as int * h as int,
            1 <= w <= 0x7fff_ffff,
            1 <= h <= 0x7fff_ffff,
            1 <= samples <= 0x7fff_ffff,
            pixels@.len() == k,
            forall|j: int|
                0 <= j < k ==> pixels@[j] == render_pixel_spec(
                    world.surfaces@,
                    *camera,
                    (j % (w as int)) as u32,
                    (h as int - 1 - j / (w as int)) as u32,
                    w,
                    h,
                    samples,
                    depth,
                    seed,
                ),
        decreases total - k,
    {
        proof {
            let ki = k as int;
            let wi = w as int;
            let hi = h as int;
            vstd::arithmetic::div_mod::lemma_fundamental_div_mod(ki, wi);
            vstd::arithmetic::div_mod::lemma_mod_bound(ki, wi);
            vstd::arithmetic::div_mod::lemma_div_pos_is_pos(ki, wi);
            if ki / wi >= hi {
                vstd::arithmetic::mul::lemma_mul_inequality(hi, ki / wi, wi);
                vstd::arithmetic::mul::lemma_mul_is_commutative(wi, ki / wi);
                assert(hi * wi <= (ki / wi) * wi);
                assert((ki / wi) * wi == ki - ki % wi);
                assert(false);
            }
            assert(0 <= ki / wi < hi);
            assert(0 <= ki % wi < wi);
        }
        let x = k % w;
        let y = h - 1 - k / w;
        let p = render_pixel(world, camera, x, y, w, h, samples, depth, seed);
        pixels.push(p);
        k = k + 1;
    }
    pixels
}

} // verus!
