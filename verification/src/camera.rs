use vstd::prelude::*;

use crate::math::{
    half, half_spec, i_to_s, normalize, normalize_spec, scale, scale_spec, stan, v3_add, v3_cross,
    v3_div, v3_mul, v3_sub, vadd, vcross, vdiv_s, vmul_s, vsub, Scalar,
};
use crate::ray::Ray;
use crate::rng::Rng;
use crate::util::{in_disc_spec, rand_in_unit_disc, REJECT_TRIES};

verus! {

/// The single-precision value nearest the circle constant, as the exact
/// dyadic ratio it is.
pub open spec fn pi_spec() -> glam::Vec3 {
    v3_div(i_to_s(13176795), i_to_s(4194304))
}

/// The single-precision value nearest the circle constant.
pub fn pi() -> (r: Scalar)
    ensures
        r.rep == pi_spec(),
{
    Scalar::ratio(13176795, 4194304)
}

/// The derived, immutable viewing basis: lens center, lower-left image
/// corner, the image plane's spanning vectors, the lens plane's basis,
/// and the lens aperture.
pub struct Camera {
    pub origin: glam::Vec3,
    pub llc: glam::Vec3,
    pub horizontal: glam::Vec3,
    pub vertical: glam::Vec3,
    pub cu: glam::Vec3,
    pub cv: glam::Vec3,
    pub aperture: Scalar,
}

/// The basis a camera is built from: viewport height `2·tan_half` scaled
/// by the aspect ratio for its width, a right-handed frame looking from
/// `origin` towards `target` with `up` roughly upward, the image plane at
/// `focal_length`, and its lower-left corner half a viewport away from
/// the center.
pub open spec fn camera_spec(
    origin: glam::Vec3,
    target: glam::Vec3,
    up: glam::Vec3,
    tan_half: glam::Vec3,
    aspect_ratio: glam::Vec3,
    aperture: Scalar,
    focal_length: glam::Vec3,
) -> Camera {
    let viewport_h = v3_mul(i_to_s(2), tan_half);
    let viewport_w = v3_mul(viewport_h, aspect_ratio);
    let cw = normalize_spec(v3_sub(origin, target));
    let cu = normalize_spec(v3_cross(up, cw));
    let cv = v3_cross(cw, cu);
    let h = scale_spec(cu, v3_mul(focal_length, viewport_w));
    let v = scale_spec(cv, v3_mul(focal_length, viewport_h));
    let llc = v3_sub(
        v3_sub(v3_sub(origin, scale_spec(h, half_spec())), scale_spec(v, half_spec())),
        scale_spec(cw, focal_length),
    );
    Camera { origin, llc, horizontal: h, vertical: v, cu, cv, aperture }
}

/// The ray through image-plane coordinates `(s, t)` from a point jittered
/// over the lens disc, and the generator state left behind.
pub open spec fn create_ray_spec(cam: Camera, s: glam::Vec3, t: glam::Vec3, state: u64) -> (
    Ray,
    u64,
) {
    let draw = in_disc_spec(state, REJECT_TRIES);
    let dx = v3_mul(v3_mul(draw.0.0, cam.aperture.rep), half_spec());
    let dy = v3_mul(v3_mul(draw.0.1, cam.aperture.rep), half_spec());
    let offset = v3_add(scale_spec(cam.cu, dx), scale_spec(cam.cv, dy));
    (
        Ray {
            origin: v3_add(cam.origin, offset),
            direction: v3_sub(
                v3_sub(
                    v3_add(
                        v3_add(cam.llc, scale_spec(cam.horizontal, s)),
                        scale_spec(cam.vertical, t),
                    ),
                    cam.origin,
                ),
                offset,
            ),
        },
        draw.1,
    )
}

impl Camera {
    /// Builds the camera from an already computed tangent of half the
    /// vertical field of view.
    pub fn from_tan_half_fov(
        origin: glam::Vec3,
        target: glam::Vec3,
        up: glam::Vec3,
        tan_half: Scalar,
        aspect_ratio: Scalar,
        aperture: Scalar,
        focal_length: Scalar,
    ) -> (r: Camera)
        ensures
            r == camera_spec(
                origin,
                target,
                up,
                tan_half.rep,
                aspect_ratio.rep,
                aperture,
                focal_length.rep,
            ),
    {
        let viewport_h = vmul_s(Scalar::of(2), tan_half);
        let viewport_w = vmul_s(viewport_h, aspect_ratio);
        let cw = normalize(vsub(origin, target));
        let cu = normalize(vcross(up, cw));
        let cv = vcross(cw, cu);
        let h = scale(cu, vmul_s(focal_length, viewport_w));
        let v = scale(cv, vmul_s(focal_length, viewport_h));
        let llc = vsub(
            vsub(vsub(origin, scale(h, half())), scale(v, half())),
            scale(cw, focal_length),
        );
        Camera { origin, llc, horizontal: h, vertical: v, cu, cv, aperture }
    }

    /// Builds the camera from a vertical field of view in degrees.  The
    /// tangent comes from the platform's libm, so the contract only says
    /// that the camera is built, by the fixed recipe, from some value of
    /// it.
    pub fn new(
        origin: glam::Vec3,
        target: glam::Vec3,
        up: glam::Vec3,
        vertical_fov: Scalar,
        aspect_ratio: Scalar,
        aperture: Scalar,
        focal_length: Scalar,
    ) -> (r: Camera)
        ensures
            exists|tan_half: glam::Vec3|
                r == camera_spec(
                    origin,
                    target,
                    up,
                    tan_half,
                    aspect_ratio.rep,
                    aperture,
                    focal_length.rep,
                ),
    {
        let theta = vmul_s(vdiv_s(pi(), Scalar::of(180)), vertical_fov);
        let tan_half = stan(vmul_s(theta, half()));
        let r = Self::from_tan_half_fov(
            origin,
            target,
            up,
            tan_half,
            aspect_ratio,
            aperture,
            focal_length,
        );
        proof {
            assert(r == camera_spec(
                origin,
                target,
                up,
                tan_half.rep,
                aspect_ratio.rep,
                aperture,
                focal_length.rep,
            ));
        }
        r
    }

    /// The ray through image-plane coordinates `(s, t)`, jittered over
    /// the lens disc for depth of field.
    pub fn create_ray(&self, s: Scalar, t: Scalar, rng: &mut Rng) -> (r: Ray)
        ensures
            (r, final(rng).state) == create_ray_spec(*self, s.rep, t.rep, old(rng).state),
    {
        let (dx0, dy0) = rand_in_unit_disc(rng);
        let dx = vmul_s(vmul_s(dx0, self.aperture), half());
        let dy = vmul_s(vmul_s(dy0, self.aperture), half());
        let offset = vadd(scale(self.cu, dx), scale(self.cv, dy));
        Ray::new(
            vadd(self.origin, offset),
            vsub(
                vsub(
                    vadd(vadd(self.llc, scale(self.horizontal, s)), scale(self.vertical, t)),
                    self.origin,
                ),
                offset,
            ),
        )
    }
}

} // verus!
