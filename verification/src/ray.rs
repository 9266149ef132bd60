use vstd::prelude::*;

use crate::math::{scale, scale_spec, vadd, v3_add, Scalar};

verus! {

/// A parametric ray: all points `origin + direction * t`.
///
/// The direction need not be unit length; algorithms that need a unit
/// vector normalize it themselves.
#[derive(Clone, Copy)]
pub struct Ray {
    pub origin: glam::Vec3,
    pub direction: glam::Vec3,
}

impl Ray {
    /// The point the ray reaches at parameter `t`.
    pub open spec fn at_spec(self, t: glam::Vec3) -> glam::Vec3 {
        v3_add(self.origin, scale_spec(self.direction, t))
    }

    pub fn new(origin: glam::Vec3, direction: glam::Vec3) -> (r: Ray)
        ensures
            r.origin == origin,
            r.direction == direction,
    {
        Ray { origin, direction }
    }

    /// The point the ray reaches at parameter `t`.
    pub fn at(&self, t: Scalar) -> (p: glam::Vec3)
        ensures
            p == self.at_spec(t.rep),
    {
        vadd(self.origin, scale(self.direction, t))
    }
}

} // verus!
