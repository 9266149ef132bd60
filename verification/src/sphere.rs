use vstd::prelude::*;

use crate::materials::Material;
use crate::math::{
    i_to_s, s_lt, s_sqrt, scale_spec, slt, ssqrt, v3_add, v3_div, v3_dot, v3_mul, v3_neg, v3_sub,
    vadd, vdiv, vdot, vmul, vneg, vsub, Scalar,
};
use crate::ray::Ray;
use crate::surface::SurfaceIntersection;

verus! {

/// A sphere.  A negative radius is allowed: it flips the outward normal
/// inward, which models a hollow lens shell.
#[derive(Clone, Copy)]
pub struct Sphere {
    pub center: glam::Vec3,
    pub radius: Scalar,
    pub material: Material,
}

/// Whether `t` lies in the accepted root interval: not below `lo` and not
/// above `hi` (false when a comparison is unordered).
pub open spec fn root_in_range_spec(t: glam::Vec3, lo: glam::Vec3, hi: glam::Vec3) -> bool {
    !s_lt(t, lo) && !s_lt(hi, t)
}

/// The intersection record for a sphere hit at parameter `t`: the hit
/// point, the outward normal `(p - center) / radius` flipped to face the
/// ray, and the side the ray came from.
pub open spec fn sphere_intersection_spec(s: Sphere, r: Ray, t: glam::Vec3) -> SurfaceIntersection {
    let p = r.at_spec(t);
    let outward = v3_div(v3_sub(p, s.center), s.radius.rep);
    let facing = s_lt(v3_dot(r.direction, outward), i_to_s(0));
    SurfaceIntersection {
        p,
        normal: if facing {
            outward
        } else {
            v3_neg(outward)
        },
        facing,
        material: s.material,
        t: Scalar { rep: t },
    }
}

/// The closed-form quadratic intersection test: with
/// `oc = origin - center`, solve `|oc + t·direction|² = radius²`; no
/// real root, or no root in `[t_min, t_max]`, means no hit, and the
/// smaller in-range root is preferred over the larger.
pub open spec fn sphere_raycast_spec(
    s: Sphere,
    r: Ray,
    t_min: glam::Vec3,
    t_max: glam::Vec3,
) -> Option<SurfaceIntersection> {
    let oc = v3_sub(r.origin, s.center);
    let a = v3_dot(r.direction, r.direction);
    let half_b = v3_dot(oc, r.direction);
    let c = v3_sub(v3_dot(oc, oc), v3_mul(s.radius.rep, s.radius.rep));
    let discriminant = v3_sub(v3_mul(half_b, half_b), v3_mul(a, c));
    if s_lt(discriminant, i_to_s(0)) {
        None
    } else {
        let sq = s_sqrt(discriminant);
        let root_lower = v3_div(v3_sub(v3_neg(half_b), sq), a);
        let root_upper = v3_div(v3_add(v3_neg(half_b), sq), a);
        if root_in_range_spec(root_lower, t_min, t_max) {
            Some(sphere_intersection_spec(s, r, root_lower))
        } else if root_in_range_spec(root_upper, t_min, t_max) {
            Some(sphere_intersection_spec(s, r, root_upper))
        } else {
            None
        }
    }
}

impl Sphere {
    pub fn new(center: glam::Vec3, radius: Scalar, material: Material) -> (r: Sphere)
        ensures
            r.center == center,
            r.radius == radius,
            r.material == material,
    {
        Sphere { center, radius, material }
    }

    /// Whether `t` lies in the accepted root interval.
    fn root_in_range(t: Scalar, lo: Scalar, hi: Scalar) -> (r: bool)
        ensures
            r == root_in_range_spec(t.rep, lo.rep, hi.rep),
    {
        !slt(t, lo) && !slt(hi, t)
    }

    /// The intersection record for a hit at parameter `t`.
    fn intersection_at(&self, r: &Ray, t: Scalar) -> (res: SurfaceIntersection)
        ensures
            res == sphere_intersection_spec(*self, *r, t.rep),
    {
        let p = r.at(t);
        let outward = vdiv(vsub(p, self.center), self.radius.rep);
        let facing = slt(Scalar { rep: vdot(r.direction, outward) }, Scalar::of(0));
        SurfaceIntersection {
            p,
            normal: if facing {
                outward
            } else {
                vneg(outward)
            },
            facing,
            material: self.material,
            t,
        }
    }

    /// The nearest intersection of `r` with this sphere at a parameter in
    /// `[t_min, t_max]`, if there is one.
    pub fn raycast(&self, r: &Ray, t_min: Scalar, t_max: Scalar) -> (res: Option<
        SurfaceIntersection,
    >)
        ensures
            res == sphere_raycast_spec(*self, *r, t_min.rep, t_max.rep),
    {
        let oc = vsub(r.origin, self.center);
        let a = Scalar { rep: vdot(r.direction, r.direction) };
        let half_b = Scalar { rep: vdot(oc, r.direction) };
        let c = Scalar { rep: vsub(vdot(oc, oc), vmul(self.radius.rep, self.radius.rep)) };
        let discriminant = Scalar { rep: vsub(vmul(half_b.rep, half_b.rep), vmul(a.rep, c.rep)) };
        if slt(discriminant, Scalar::of(0)) {
            return None;
        }
        let sq = ssqrt(discriminant);
        let neg_half_b = Scalar { rep: vneg(half_b.rep) };
        let root_lower = Scalar { rep: vdiv(vsub(neg_half_b.rep, sq.rep), a.rep) };
        let root_upper = Scalar { rep: vdiv(vadd(neg_half_b.rep, sq.rep), a.rep) };
        if Self::root_in_range(root_lower, t_min, t_max) {
            Some(self.intersection_at(r, root_lower))
        } else if Self::root_in_range(root_upper, t_min, t_max) {
            Some(self.intersection_at(r, root_upper))
        } else {
            None
        }
    }
}

} // verus!
