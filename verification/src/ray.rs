//! Rays: an origin, a direction and the shutter time used to sample
//! moving geometry.

use vstd::prelude::*;
use crate::fixed::Fx;
use crate::vec3::{Point3, Vec3, v3_add, v3_scale};

verus! {

#[derive(Clone, Copy, Debug, PartialEq, Eq, Structural)]
pub struct Ray {
    pub origin: Point3,
    pub direction: Vec3,
    pub time: Fx,
}

/// The point the ray reaches at parameter `t`.
pub open spec fn ray_at(r: Ray, t: Fx) -> Vec3 {
    v3_add(r.origin, v3_scale(r.direction, t))
}

impl Ray {
    pub fn new(origin: Point3, direction: Vec3, time: Fx) -> (r: Ray)
        ensures
            r == (Ray { origin, direction, time }),
    {
        Ray { origin, direction, time }
    }

    /// A ray at shutter time zero.
    pub fn new_without_move(origin: Point3, direction: Vec3) -> (r: Ray)
        ensures
            r == (Ray { origin, direction, time: Fx { bits: 0 } }),
    {
        Ray { origin, direction, time: Fx { bits: 0 } }
    }

    pub fn at(&self, t: Fx) -> (p: Vec3)
        ensures
            p == ray_at(*self, t),
    {
        self.origin.add(self.direction.scale(t))
    }
}

} // verus!
