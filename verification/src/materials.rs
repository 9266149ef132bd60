use vstd::prelude::*;

use crate::math::{
    i_to_s, normalize, normalize_spec, one_vec, one_vec_spec, s_lt, s_min, s_sqrt, scale,
    scale_spec, slt, smin, ssqrt, v3_add, v3_div, v3_dot, v3_mul, v3_neg, v3_sub, vadd, vadd_s,
    vdiv_s, vdot, vmul_s, vneg, vsub_s, Scalar,
};
use crate::ray::Ray;
use crate::rng::{xorshift_step, Rng};
use crate::surface::SurfaceIntersection;
use crate::util::{
    in_sphere_spec, is_near_zero, near_zero_spec, on_sphere_spec, rand_in_unit_sphere,
    rand_on_unit_sphere, rand_unit_scalar, reflect, reflect_spec, refract, refract_spec,
    unit_scalar_spec, REJECT_TRIES,
};

verus! {

/// A diffuse surface: scatters into a random direction around the normal
/// and attenuates by its albedo.  Never absorbs.
#[derive(Clone, Copy)]
pub struct LambertianMaterial {
    pub albedo: glam::Vec3,
}

impl LambertianMaterial {
    pub fn new(albedo: glam::Vec3) -> (r: LambertianMaterial)
        ensures
            r.albedo == albedo,
    {
        LambertianMaterial { albedo }
    }
}

/// A reflective surface: mirrors the incoming ray, perturbed by `fuzz`
/// times a random point in the unit ball, and attenuates by its albedo.
/// Absorbs exactly when the perturbed direction points into the surface.
#[derive(Clone, Copy)]
pub struct MetalMaterial {
    pub albedo: glam::Vec3,
    pub fuzz: Scalar,
}

impl MetalMaterial {
    pub fn new(albedo: glam::Vec3, fuzz: Scalar) -> (r: MetalMaterial)
        ensures
            r.albedo == albedo,
            r.fuzz == fuzz,
    {
        MetalMaterial { albedo, fuzz }
    }
}

/// A clear surface: refracts or reflects at the boundary according to
/// Snell's law and the Schlick reflectance, with no attenuation.
/// Never absorbs.
#[derive(Clone, Copy)]
pub struct DielectricMaterial {
    pub index_of_refraction: Scalar,
}

impl DielectricMaterial {
    pub fn new(index_of_refraction: Scalar) -> (r: DielectricMaterial)
        ensures
            r.index_of_refraction == index_of_refraction,
    {
        DielectricMaterial { index_of_refraction }
    }
}

/// The scattering policies a surface can carry, dispatched by `match`.
#[derive(Clone, Copy)]
pub enum Material {
    Lambertian(LambertianMaterial),
    Metal(MetalMaterial),
    Dielectric(DielectricMaterial),
}

/// What a Lambertian surface does with a hit: scatter towards the normal
/// plus a random unit vector, falling back to the bare normal when the
/// two nearly cancel, attenuated by the albedo.  Always a ray, never
/// absorption.
pub open spec fn lambertian_scatter_spec(
    m: LambertianMaterial,
    hit: SurfaceIntersection,
    state: u64,
) -> (Option<(glam::Vec3, Ray)>, u64) {
    let draw = on_sphere_spec(state, REJECT_TRIES);
    let d0 = v3_add(hit.normal, draw.0);
    let dir = if near_zero_spec(d0) {
        hit.normal
    } else {
        d0
    };
    (Some((m.albedo, Ray { origin: hit.p, direction: dir })), draw.1)
}

/// The direction a metallic surface scatters into: the mirrored incoming
/// direction, normalized, perturbed by `fuzz` times a random ball point.
pub open spec fn metal_direction_spec(
    m: MetalMaterial,
    r: Ray,
    hit: SurfaceIntersection,
    state: u64,
) -> glam::Vec3 {
    let draw = in_sphere_spec(state, REJECT_TRIES);
    v3_add(normalize_spec(reflect_spec(r.direction, hit.normal)), scale_spec(draw.0, m.fuzz.rep))
}

/// What a metallic surface does with a hit: scatter along the perturbed
/// mirror direction, attenuated by the albedo — unless that direction
/// points into the surface, which absorbs the ray.
pub open spec fn metal_scatter_spec(
    m: MetalMaterial,
    r: Ray,
    hit: SurfaceIntersection,
    state: u64,
) -> (Option<(glam::Vec3, Ray)>, u64) {
    let draw = in_sphere_spec(state, REJECT_TRIES);
    let dir = metal_direction_spec(m, r, hit, state);
    if s_lt(i_to_s(0), v3_dot(dir, hit.normal)) {
        (Some((m.albedo, Ray { origin: hit.p, direction: dir })), draw.1)
    } else {
        (None, draw.1)
    }
}

/// The Schlick approximation to the Fresnel reflectance:
/// `r0 + (1 - r0)·(1 - cos_theta)^5` with `r0` the squared ratio
/// `(1 - refraction_ratio) / (1 + refraction_ratio)`.
pub open spec fn reflectance_spec(
    cos_theta: glam::Vec3,
    refraction_ratio: glam::Vec3,
) -> glam::Vec3 {
    let r0 = v3_div(v3_sub(i_to_s(1), refraction_ratio), v3_add(i_to_s(1), refraction_ratio));
    let r0_sq = v3_mul(r0, r0);
    let omc = v3_sub(i_to_s(1), cos_theta);
    let omc2 = v3_mul(omc, omc);
    let omc5 = v3_mul(v3_mul(omc2, omc2), omc);
    v3_add(r0_sq, v3_mul(v3_sub(i_to_s(1), r0_sq), omc5))
}

/// The Schlick reflectance.
pub fn reflectance(cos_theta: Scalar, refraction_ratio: Scalar) -> (r: Scalar)
    ensures
        r.rep == reflectance_spec(cos_theta.rep, refraction_ratio.rep),
{
    let one = Scalar::of(1);
    let r0 = vdiv_s(vsub_s(one, refraction_ratio), vadd_s(one, refraction_ratio));
    let r0_sq = vmul_s(r0, r0);
    let omc = vsub_s(one, cos_theta);
    let omc2 = vmul_s(omc, omc);
    let omc5 = vmul_s(vmul_s(omc2, omc2), omc);
    vadd_s(r0_sq, vmul_s(vsub_s(one, r0_sq), omc5))
}

/// What a dielectric surface does with a hit: refract by Snell's law, or
/// reflect when refraction is impossible or a draw against the Schlick
/// reflectance says so, with no attenuation.  Always a ray, never
/// absorption; a uniform scalar is drawn only on the branch that can
/// refract.
pub open spec fn dielectric_scatter_spec(
    m: DielectricMaterial,
    r: Ray,
    hit: SurfaceIntersection,
    state: u64,
) -> (Option<(glam::Vec3, Ray)>, u64) {
    let ratio = if hit.facing {
        v3_div(i_to_s(1), m.index_of_refraction.rep)
    } else {
        m.index_of_refraction.rep
    };
    let dn = normalize_spec(r.direction);
    let cos_theta = s_min(v3_dot(hit.normal, v3_neg(dn)), i_to_s(1));
    let sin_theta = s_sqrt(v3_sub(i_to_s(1), v3_mul(cos_theta, cos_theta)));
    let cannot_refract = s_lt(i_to_s(1), v3_mul(ratio, sin_theta));
    if cannot_refract {
        (Some((one_vec_spec(), Ray { origin: hit.p, direction: reflect_spec(dn, hit.normal) })), state)
    } else {
        let u = unit_scalar_spec(state);
        let s2 = xorshift_step(state);
        let dir = if s_lt(u, reflectance_spec(cos_theta, ratio)) {
            reflect_spec(dn, hit.normal)
        } else {
            refract_spec(dn, hit.normal, ratio)
        };
        (Some((one_vec_spec(), Ray { origin: hit.p, direction: dir })), s2)
    }
}

impl LambertianMaterial {
    /// Scatters a hit on this surface.  Never absorbs.
    pub fn scatter(&self, _r: &Ray, intersection: &SurfaceIntersection, rng: &mut Rng) -> (res:
        Option<(glam::Vec3, Ray)>)
        ensures
            (res, final(rng).state) == lambertian_scatter_spec(
                *self,
                *intersection,
                old(rng).state,
            ),
            res.is_some(),
    {
        let sph = rand_on_unit_sphere(rng);
        let d0 = vadd(intersection.normal, sph);
        let scattered_direction = if is_near_zero(d0) {
            intersection.normal
        } else {
            d0
        };
        Some((self.albedo, Ray::new(intersection.p, scattered_direction)))
    }
}

impl MetalMaterial {
    /// Scatters a hit on this surface.  Absorbs exactly when the
    /// perturbed mirror direction does not leave the surface.
    pub fn scatter(&self, r: &Ray, intersection: &SurfaceIntersection, rng: &mut Rng) -> (res:
        Option<(glam::Vec3, Ray)>)
        ensures
            (res, final(rng).state) == metal_scatter_spec(
                *self,
                *r,
                *intersection,
                old(rng).state,
            ),
            res.is_none() <==> !s_lt(
                i_to_s(0),
                v3_dot(
                    metal_direction_spec(*self, *r, *intersection, old(rng).state),
                    intersection.normal,
                ),
            ),
    {
        let perturbation = rand_in_unit_sphere(rng);
        let reflected_direction = normalize(reflect(r.direction, intersection.normal));
        let scattered_direction = vadd(reflected_direction, scale(perturbation, self.fuzz));
        if slt(Scalar::of(0), Scalar { rep: vdot(scattered_direction, intersection.normal) }) {
            Some((self.albedo, Ray::new(intersection.p, scattered_direction)))
        } else {
            None
        }
    }
}

impl DielectricMaterial {
    /// Scatters a hit on this surface.  Never absorbs.
    pub fn scatter(&self, r: &Ray, intersection: &SurfaceIntersection, rng: &mut Rng) -> (res:
        Option<(glam::Vec3, Ray)>)
        ensures
            (res, final(rng).state) == dielectric_scatter_spec(
                *self,
                *r,
                *intersection,
                old(rng).state,
            ),
            res.is_some(),
    {
        let one = Scalar::of(1);
        let refraction_ratio = if intersection.facing {
            vdiv_s(one, self.index_of_refraction)
        } else {
            self.index_of_refraction
        };
        let r_direction_norm = normalize(r.direction);
        let cos_theta = smin(
            Scalar { rep: vdot(intersection.normal, vneg(r_direction_norm)) },
            one,
        );
        let sin_theta = ssqrt(vsub_s(one, vmul_s(cos_theta, cos_theta)));
        let cannot_refract = slt(one, vmul_s(refraction_ratio, sin_theta));
        let scattered_direction = if cannot_refract {
            reflect(r_direction_norm, intersection.normal)
        } else {
            let u = rand_unit_scalar(rng);
            if slt(u, reflectance(cos_theta, refraction_ratio)) {
                reflect(r_direction_norm, intersection.normal)
            } else {
                refract(r_direction_norm, intersection.normal, refraction_ratio)
            }
        };
        Some((one_vec(), Ray::new(intersection.p, scattered_direction)))
    }
}

/// What a material does with a hit, by its policy.
pub open spec fn material_scatter_spec(
    m: Material,
    r: Ray,
    hit: SurfaceIntersection,
    state: u64,
) -> (Option<(glam::Vec3, Ray)>, u64) {
    match m {
        Material::Lambertian(l) => lambertian_scatter_spec(l, hit, state),
        Material::Metal(mm) => metal_scatter_spec(mm, r, hit, state),
        Material::Dielectric(d) => dielectric_scatter_spec(d, r, hit, state),
    }
}

impl Material {
    /// Scatters a hit by this material's policy.
    pub fn scatter(&self, r: &Ray, intersection: &SurfaceIntersection, rng: &mut Rng) -> (res:
        Option<(glam::Vec3, Ray)>)
        ensures
            (res, final(rng).state) == material_scatter_spec(
                *self,
                *r,
                *intersection,
                old(rng).state,
            ),
    {
        match self {
            Material::Lambertian(l) => l.scatter(r, intersection, rng),
            Material::Metal(m) => m.scatter(r, intersection, rng),
            Material::Dielectric(d) => d.scatter(r, intersection, rng),
        }
    }
}

} // verus!
