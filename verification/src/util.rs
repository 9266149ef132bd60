use vstd::prelude::*;

use crate::math::{
    i_to_s, normalize, normalize_spec, s_abs, s_lt, s_min, s_sqrt, sabs, scale, scale_spec, slt,
    smin, ssqrt, v3_abs_diff_eq, v3_add, v3_div, v3_dot, v3_mul, v3_neg, v3_of, v3_sub, vabs_diff_eq,
    vadd, vadd_s, vdot, vmul_s, vneg, vnew, vsub, vsub_s, zero_vec, zero_vec_spec, Scalar,
};
use crate::rng::{rng_output, xorshift_step, Rng};

verus! {

/// How many rejection-sampling attempts a draw may make before it falls
/// back to a fixed point of the target region.
pub const REJECT_TRIES: u32 = 127;

/// The tolerance of `is_near_zero`: the spacing of single-precision
/// values just above one.
pub open spec fn epsilon_spec() -> glam::Vec3 {
    v3_div(i_to_s(1), i_to_s(0x800000))
}

/// The tolerance of `is_near_zero`.
pub fn epsilon() -> (r: Scalar)
    ensures
        r.rep == epsilon_spec(),
{
    Scalar::ratio(1, 0x800000)
}

/// Whether every component of `v` is within `epsilon` of zero.
pub open spec fn near_zero_spec(v: glam::Vec3) -> bool {
    v3_abs_diff_eq(v, zero_vec_spec(), epsilon_spec())
}

/// Whether every component of `v` is within `epsilon` of zero.
pub fn is_near_zero(v: glam::Vec3) -> (r: bool)
    ensures
        r == near_zero_spec(v),
{
    vabs_diff_eq(v, zero_vec(), epsilon().rep)
}

/// The uniform draw from `[0, 1)` made by one generator step: the top 24
/// bits of the output word over 2^24.
pub open spec fn unit_scalar_spec(state: u64) -> glam::Vec3 {
    v3_div(i_to_s((rng_output(state) >> 8) as int), i_to_s(0x1000000))
}

/// Draws a uniform scalar in `[0, 1)`.
pub fn rand_unit_scalar(rng: &mut Rng) -> (s: Scalar)
    ensures
        final(rng).state == xorshift_step(old(rng).state),
        s.rep == unit_scalar_spec(old(rng).state),
{
    let bits = rng.next_u32();
    assert(bits >> 8 < 0x1000000) by (bit_vector);
    let hi = bits >> 8;
    Scalar::ratio(hi as i32, 0x1000000)
}

/// The uniform draw from `[-1, 1)` made by one generator step.
pub open spec fn sym_scalar_spec(state: u64) -> glam::Vec3 {
    v3_sub(v3_mul(unit_scalar_spec(state), i_to_s(2)), i_to_s(1))
}

/// Draws a uniform scalar in `[-1, 1)`.
pub fn rand_sym_scalar(rng: &mut Rng) -> (s: Scalar)
    ensures
        final(rng).state == xorshift_step(old(rng).state),
        s.rep == sym_scalar_spec(old(rng).state),
{
    let u = rand_unit_scalar(rng);
    vsub_s(vmul_s(u, Scalar::of(2)), Scalar::of(1))
}

/// The candidate point one rejection attempt builds: three symmetric
/// draws, one per axis.
pub open spec fn attempt_point_spec(state: u64) -> glam::Vec3 {
    let s1 = xorshift_step(state);
    let s2 = xorshift_step(s1);
    v3_of(sym_scalar_spec(state), sym_scalar_spec(s1), sym_scalar_spec(s2))
}

/// The generator state after one three-draw attempt.
pub open spec fn attempt_end_spec(state: u64) -> u64 {
    xorshift_step(xorshift_step(xorshift_step(state)))
}

/// The point in the open unit ball drawn by rejection sampling from the
/// enclosing cube, and the state left behind; after `fuel` rejected
/// attempts the draw falls back to the ball's center.
pub open spec fn in_sphere_spec(state: u64, fuel: u32) -> (glam::Vec3, u64)
    decreases fuel,
{
    let p = attempt_point_spec(state);
    let s3 = attempt_end_spec(state);
    if s_lt(v3_dot(p, p), i_to_s(1)) {
        (p, s3)
    } else if fuel == 0 {
        (zero_vec_spec(), s3)
    } else {
        in_sphere_spec(s3, (fuel - 1) as u32)
    }
}

fn in_sphere_rec(rng: &mut Rng, fuel: u32) -> (v: glam::Vec3)
    ensures
        (v, final(rng).state) == in_sphere_spec(old(rng).state, fuel),
    decreases fuel,
{
    let x = rand_sym_scalar(rng);
    let y = rand_sym_scalar(rng);
    let z = rand_sym_scalar(rng);
    let p = vnew(x.rep, y.rep, z.rep);
    if slt(Scalar { rep: vdot(p, p) }, Scalar::of(1)) {
        p
    } else if fuel == 0 {
        zero_vec()
    } else {
        in_sphere_rec(rng, fuel - 1)
    }
}

/// Draws a point in the open unit ball.
pub fn rand_in_unit_sphere(rng: &mut Rng) -> (v: glam::Vec3)
    ensures
        (v, final(rng).state) == in_sphere_spec(old(rng).state, REJECT_TRIES),
{
    in_sphere_rec(rng, REJECT_TRIES)
}

/// The squared-length floor below which a candidate is rejected before
/// normalizing, so the quotient never involves a vanishing length.
pub open spec fn tiny_length_spec() -> glam::Vec3 {
    v3_mul(v3_div(i_to_s(1), i_to_s(0x100000)), v3_div(i_to_s(1), i_to_s(0x100000)))
}

/// The point on the unit sphere drawn by rejection sampling — a ball
/// point away from the center, normalized — and the state left behind;
/// after `fuel` rejected attempts the draw falls back to a unit axis
/// vector.
pub open spec fn on_sphere_spec(state: u64, fuel: u32) -> (glam::Vec3, u64)
    decreases fuel,
{
    let p = attempt_point_spec(state);
    let s3 = attempt_end_spec(state);
    let d = v3_dot(p, p);
    if s_lt(d, i_to_s(1)) && s_lt(tiny_length_spec(), d) {
        (normalize_spec(p), s3)
    } else if fuel == 0 {
        (v3_of(i_to_s(1), i_to_s(0), i_to_s(0)), s3)
    } else {
        on_sphere_spec(s3, (fuel - 1) as u32)
    }
}

fn on_sphere_rec(rng: &mut Rng, fuel: u32) -> (v: glam::Vec3)
    ensures
        (v, final(rng).state) == on_sphere_spec(old(rng).state, fuel),
    decreases fuel,
{
    let x = rand_sym_scalar(rng);
    let y = rand_sym_scalar(rng);
    let z = rand_sym_scalar(rng);
    let p = vnew(x.rep, y.rep, z.rep);
    let d = Scalar { rep: vdot(p, p) };
    let tiny = vmul_s(Scalar::ratio(1, 0x100000), Scalar::ratio(1, 0x100000));
    if slt(d, Scalar::of(1)) && slt(tiny, d) {
        normalize(p)
    } else if fuel == 0 {
        let one = Scalar::of(1);
        let zero = Scalar::of(0);
        vnew(one.rep, zero.rep, zero.rep)
    } else {
        on_sphere_rec(rng, fuel - 1)
    }
}

/// Draws a point on the unit sphere.
pub fn rand_on_unit_sphere(rng: &mut Rng) -> (v: glam::Vec3)
    ensures
        (v, final(rng).state) == on_sphere_spec(old(rng).state, REJECT_TRIES),
{
    on_sphere_rec(rng, REJECT_TRIES)
}

/// The point in the open unit disc drawn by rejection sampling from the
/// enclosing square, as its two coordinates, with the state left behind;
/// after `fuel` rejected attempts the draw falls back to the center.
pub open spec fn in_disc_spec(state: u64, fuel: u32) -> ((glam::Vec3, glam::Vec3), u64)
    decreases fuel,
{
    let x = sym_scalar_spec(state);
    let s1 = xorshift_step(state);
    let y = sym_scalar_spec(s1);
    let s2 = xorshift_step(s1);
    if s_lt(v3_add(v3_mul(x, x), v3_mul(y, y)), i_to_s(1)) {
        ((x, y), s2)
    } else if fuel == 0 {
        ((i_to_s(0), i_to_s(0)), s2)
    } else {
        in_disc_spec(s2, (fuel - 1) as u32)
    }
}

fn in_disc_rec(rng: &mut Rng, fuel: u32) -> (v: (Scalar, Scalar))
    ensures
        ((v.0.rep, v.1.rep), final(rng).state) == in_disc_spec(old(rng).state, fuel),
    decreases fuel,
{
    let x = rand_sym_scalar(rng);
    let y = rand_sym_scalar(rng);
    if slt(vadd_s(vmul_s(x, x), vmul_s(y, y)), Scalar::of(1)) {
        (x, y)
    } else if fuel == 0 {
        (Scalar::of(0), Scalar::of(0))
    } else {
        in_disc_rec(rng, fuel - 1)
    }
}

/// Draws a point in the open unit disc, as its two coordinates.
pub fn rand_in_unit_disc(rng: &mut Rng) -> (v: (Scalar, Scalar))
    ensures
        ((v.0.rep, v.1.rep), final(rng).state) == in_disc_spec(old(rng).state, REJECT_TRIES),
{
    in_disc_rec(rng, REJECT_TRIES)
}

/// The mirror image of `v` about the plane with normal `normal`:
/// `v - 2·dot(v, normal)·normal`.
pub open spec fn reflect_spec(v: glam::Vec3, normal: glam::Vec3) -> glam::Vec3 {
    v3_sub(v, scale_spec(normal, v3_mul(i_to_s(2), v3_dot(v, normal))))
}

/// Reflects `v` about the plane with normal `normal`.
pub fn reflect(v: glam::Vec3, normal: glam::Vec3) -> (r: glam::Vec3)
    ensures
        r == reflect_spec(v, normal),
{
    let d = Scalar { rep: vdot(v, normal) };
    vsub(v, scale(normal, vmul_s(Scalar::of(2), d)))
}

/// The refracted direction of Snell's law in vector form: the transverse
/// part `(v + cos·normal)·ratio` plus the longitudinal part along the
/// inverted normal.
pub open spec fn refract_spec(v: glam::Vec3, normal: glam::Vec3, ratio: glam::Vec3) -> glam::Vec3 {
    let inv_normal = v3_neg(normal);
    let cos = s_min(v3_dot(v, inv_normal), i_to_s(1));
    let r_perp = scale_spec(v3_add(v, scale_spec(normal, cos)), ratio);
    let r_para = scale_spec(inv_normal, s_sqrt(s_abs(v3_sub(i_to_s(1), v3_dot(r_perp, r_perp)))));
    v3_add(r_perp, r_para)
}

/// Refracts `v` through a surface with normal `normal` at the given ratio
/// of refractive indices.
pub fn refract(v: glam::Vec3, normal: glam::Vec3, ratio: Scalar) -> (r: glam::Vec3)
    ensures
        r == refract_spec(v, normal, ratio.rep),
{
    let inv_normal = vneg(normal);
    let cos = smin(Scalar { rep: vdot(v, inv_normal) }, Scalar::of(1));
    let r_perp = scale(vadd(v, scale(normal, cos)), ratio);
    let para_len = ssqrt(sabs(vsub_s(Scalar::of(1), Scalar { rep: vdot(r_perp, r_perp) })));
    vadd(r_perp, scale(inv_normal, para_len))
}

} // verus!
