use vstd::prelude::*;

use crate::math::{s_lt, slt, Scalar};
use crate::ray::Ray;
use crate::sphere::{sphere_raycast_spec, Sphere};
use crate::surface::SurfaceIntersection;

verus! {

/// An unordered collection of spheres, scanned linearly for the nearest
/// hit.  A later sphere's hit replaces the record only when it is
/// strictly nearer, so among surfaces that are hit at exactly the same
/// parameter the earliest inserted one is reported.
pub struct World {
    pub surfaces: Vec<Sphere>,
}

/// The left-to-right scan over the remaining spheres: `nearest` is the
/// parameter of the best hit so far and `acc` its record.  The first hit
/// is taken anywhere in the queried interval; after that, a later
/// sphere's hit replaces the record only when its parameter is strictly
/// below `nearest`.
pub open spec fn world_scan_spec(
    spheres: Seq<Sphere>,
    r: Ray,
    t_min: glam::Vec3,
    nearest: glam::Vec3,
    acc: Option<SurfaceIntersection>,
) -> Option<SurfaceIntersection>
    decreases spheres.len(),
{
    if spheres.len() == 0 {
        acc
    } else {
        match sphere_raycast_spec(spheres[0], r, t_min, nearest) {
            Some(hit) => if acc is None || s_lt(hit.t.rep, nearest) {
                world_scan_spec(spheres.skip(1), r, t_min, hit.t.rep, Some(hit))
            } else {
                world_scan_spec(spheres.skip(1), r, t_min, nearest, acc)
            },
            None => world_scan_spec(spheres.skip(1), r, t_min, nearest, acc),
        }
    }
}

/// The nearest intersection over the whole collection.
pub open spec fn world_raycast_spec(
    spheres: Seq<Sphere>,
    r: Ray,
    t_min: glam::Vec3,
    t_max: glam::Vec3,
) -> Option<SurfaceIntersection> {
    world_scan_spec(spheres, r, t_min, t_max, None)
}

impl World {
    pub fn new() -> (w: World)
        ensures
            w.surfaces@ =~= Seq::<Sphere>::empty(),
    {
        World { surfaces: Vec::new() }
    }

    /// The nearest intersection of `r` with any sphere at a parameter in
    /// `[t_min, t_max]`, found by a linear scan that shrinks the upper
    /// bound to the best parameter seen so far.
    pub fn raycast(&self, r: &Ray, t_min: Scalar, t_max: Scalar) -> (res: Option<
        SurfaceIntersection,
    >)
        ensures
            res == world_raycast_spec(self.surfaces@, *r, t_min.rep, t_max.rep),
    {
        let mut result: Option<SurfaceIntersection> = None;
        let mut t_nearest: Scalar = t_max;
        let n = self.surfaces.len();
        let mut i: usize = 0;
        assert(self.surfaces@.skip(0) =~= self.surfaces@);
        while i < n
            invariant
                0 <= i <= n,
                n == self.surfaces@.len(),
                world_scan_spec(
                    self.surfaces@.skip(i as int),
                    *r,
                    t_min.rep,
                    t_nearest.rep,
                    result,
                ) == world_raycast_spec(self.surfaces@, *r, t_min.rep, t_max.rep),
            decreases n - i,
        {
            let ghost pre = self.surfaces@.skip(i as int);
            assert(pre[0] == self.surfaces@[i as int]);
            assert(pre.skip(1) =~= self.surfaces@.skip(i as int + 1));
            match self.surfaces[i].raycast(r, t_min, t_nearest) {
                Some(intersection) => {
                    if result.is_none() || slt(intersection.t, t_nearest) {
                        t_nearest = intersection.t;
                        result = Some(intersection);
                    }
                },
                None => {},
            }
            i = i + 1;
        }
        assert(self.surfaces@.skip(n as int) =~= Seq::<Sphere>::empty());
        result
    }
}

} // verus!
