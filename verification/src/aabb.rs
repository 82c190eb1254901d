//! Axis-aligned bounding boxes: a min/max corner pair, the slab
//! intersection test, and the union operator, which is proved
//! commutative and associative.

use vstd::prelude::*;
use crate::fixed::{Fx, FX_ONE, fx_div, fx_mul, fx_sub, fx_min, fx_max};
use crate::vec3::{Point3, v3, v3_axis};
use crate::ray::Ray;

verus! {

#[derive(Clone, Copy, Debug, PartialEq, Eq, Structural)]
pub struct AABB {
    pub min: Point3,
    pub max: Point3,
}

/// One slab step: tighten the running interval with the entry and exit
/// parameters of axis `a`. A zero direction component divides to the
/// saturation bound, the fixed-point stand-in for an IEEE infinity.
pub open spec fn slab_tighten(b: AABB, r: Ray, a: int, tmin: Fx, tmax: Fx) -> (Fx, Fx) {
    let inv_d = fx_div(Fx { bits: FX_ONE }, v3_axis(r.direction, a));
    let t0 = fx_mul(fx_sub(v3_axis(b.min, a), v3_axis(r.origin, a)), inv_d);
    let t1 = fx_mul(fx_sub(v3_axis(b.max, a), v3_axis(r.origin, a)), inv_d);
    let (lo, hi) = if inv_d.bits < 0 {
        (t1, t0)
    } else {
        (t0, t1)
    };
    (fx_max(lo, tmin), fx_min(hi, tmax))
}

/// The slab test over all three axes: the interval survives each axis
/// without becoming empty.
pub open spec fn aabb_hit(b: AABB, r: Ray, tmin: Fx, tmax: Fx) -> bool {
    let (m0, x0) = slab_tighten(b, r, 0, tmin, tmax);
    if x0.bits <= m0.bits {
        false
    } else {
        let (m1, x1) = slab_tighten(b, r, 1, m0, x0);
        if x1.bits <= m1.bits {
            false
        } else {
            let (m2, x2) = slab_tighten(b, r, 2, m1, x1);
            x2.bits > m2.bits
        }
    }
}

/// Componentwise min of the minima and max of the maxima.
pub open spec fn surrounding_box_spec(box0: AABB, box1: AABB) -> AABB {
    AABB {
        min: v3(
            fx_min(box0.min.x, box1.min.x),
            fx_min(box0.min.y, box1.min.y),
            fx_min(box0.min.z, box1.min.z),
        ),
        max: v3(
            fx_max(box0.max.x, box1.max.x),
            fx_max(box0.max.y, box1.max.y),
            fx_max(box0.max.z, box1.max.z),
        ),
    }
}

impl AABB {
    pub fn new(a: Point3, b: Point3) -> (r: AABB)
        ensures
            r == (AABB { min: a, max: b }),
    {
        AABB { min: a, max: b }
    }

    /// Does the ray meet the box within `(tmin, tmax)`?
    pub fn hit(&self, r: &Ray, tmin: Fx, tmax: Fx) -> (res: bool)
        ensures
            res == aabb_hit(*self, *r, tmin, tmax),
    {
        let (m0, x0) = tighten(self, r, 0, tmin, tmax);
        if x0.bits <= m0.bits {
            return false;
        }
        let (m1, x1) = tighten(self, r, 1, m0, x0);
        if x1.bits <= m1.bits {
            return false;
        }
        let (m2, x2) = tighten(self, r, 2, m1, x1);
        x2.bits > m2.bits
    }
}

/// One slab step of the intersection test.
fn tighten(b: &AABB, r: &Ray, a: usize, tmin: Fx, tmax: Fx) -> (res: (Fx, Fx))
    requires
        a < 3,
    ensures
        res == slab_tighten(*b, *r, a as int, tmin, tmax),
{
    let one = Fx { bits: FX_ONE };
    let inv_d = one.div(r.direction.axis(a));
    let t0 = b.min.axis(a).sub(r.origin.axis(a)).mul(inv_d);
    let t1 = b.max.axis(a).sub(r.origin.axis(a)).mul(inv_d);
    let (lo, hi) = if inv_d.bits < 0 {
        (t1, t0)
    } else {
        (t0, t1)
    };
    (lo.fmax(tmin), hi.fmin(tmax))
}

pub fn surrounding_box(box0: &AABB, box1: &AABB) -> (r: AABB)
    ensures
        r == surrounding_box_spec(*box0, *box1),
{
    let small = Point3::new(
        box0.min.x.fmin(box1.min.x),
        box0.min.y.fmin(box1.min.y),
        box0.min.z.fmin(box1.min.z),
    );
    let big = Point3::new(
        box0.max.x.fmax(box1.max.x),
        box0.max.y.fmax(box1.max.y),
        box0.max.z.fmax(box1.max.z),
    );
    AABB::new(small, big)
}

/// The union of two boxes does not depend on their order.
pub proof fn lemma_surrounding_box_commutative(a: AABB, b: AABB)
    ensures
        surrounding_box_spec(a, b) == surrounding_box_spec(b, a),
{
}

/// Union is associative: grouping does not matter.
pub proof fn lemma_surrounding_box_associative(a: AABB, b: AABB, c: AABB)
    ensures
        surrounding_box_spec(surrounding_box_spec(a, b), c)
            == surrounding_box_spec(a, surrounding_box_spec(b, c)),
{
}

} // verus!
