use vstd::prelude::*;

use crate::materials::Material;
use crate::math::Scalar;

verus! {

/// The record of a successful ray-surface intersection.
///
/// `normal` is the geometric normal flipped, if need be, to face the
/// incoming ray; `facing` tells whether the ray approached from the
/// outward side, which is exactly when no flip was needed.
#[derive(Clone, Copy)]
pub struct SurfaceIntersection {
    pub p: glam::Vec3,
    pub normal: glam::Vec3,
    pub facing: bool,
    pub material: Material,
    pub t: Scalar,
}

} // verus!
