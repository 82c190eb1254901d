//! Axis-aligned rectangles in the three axis orientations: a plane
//! intersection, an in-bounds test, and unit surface coordinates.

use vstd::prelude::*;
use crate::fixed::{Fx, FX_ONE, fx, fx_add, fx_sub, fx_mul, fx_div};
use crate::vec3::{Vec3, Point3, v3, v3_dot, lemma_v3_dot_neg, v3_wf};
use crate::ray::{Ray, ray_at};
use crate::aabb::AABB;
use crate::material::{Material, material_wf};
use crate::hittable::{HitData, HitRecord, mk_hit, opt_data, hit_post};

verus! {

/// The bounding-box padding along a rectangle's degenerate axis,
/// roughly one ten-thousandth, keeping the slab test's box nonempty.
pub const RECT_PAD: i64 = 7;

pub struct XYRect {
    pub x0: Fx,
    pub x1: Fx,
    pub y0: Fx,
    pub y1: Fx,
    pub k: Fx,
    pub material: Material,
}

pub struct XZRect {
    pub x0: Fx,
    pub x1: Fx,
    pub z0: Fx,
    pub z1: Fx,
    pub k: Fx,
    pub material: Material,
}

pub struct YZRect {
    pub y0: Fx,
    pub y1: Fx,
    pub z0: Fx,
    pub z1: Fx,
    pub k: Fx,
    pub material: Material,
}

/// The shared rectangle intersection: the plane parameter must lie
/// strictly inside the interval, the two in-plane coordinates inside
/// the bounds; the coordinates map to `[0, 1]`.
pub open spec fn rect_hit(
    a0: Fx,
    a1: Fx,
    b0: Fx,
    b1: Fx,
    k: Fx,
    material: Material,
    outward: Vec3,
    o_k: Fx,
    d_k: Fx,
    o_a: Fx,
    d_a: Fx,
    o_b: Fx,
    d_b: Fx,
    r: Ray,
    t_min: Fx,
    t_max: Fx,
) -> Option<HitData> {
    let t = fx_div(fx_sub(k, o_k), d_k);
    if t.bits <= t_min.bits || t.bits >= t_max.bits {
        None
    } else {
        let a = fx_add(o_a, fx_mul(t, d_a));
        let b = fx_add(o_b, fx_mul(t, d_b));
        if a.bits < a0.bits || a.bits > a1.bits || b.bits < b0.bits || b.bits > b1.bits {
            None
        } else {
            let u = fx_div(fx_sub(a, a0), fx_sub(a1, a0));
            let v = fx_div(fx_sub(b, b0), fx_sub(b1, b0));
            Some(
                mk_hit(
                    t,
                    ray_at(r, t),
                    u,
                    v,
                    v3_dot(r.direction, outward).bits < 0,
                    outward,
                    material,
                ),
            )
        }
    }
}

pub open spec fn xy_rect_hit(rc: XYRect, r: Ray, t_min: Fx, t_max: Fx) -> Option<HitData> {
    rect_hit(
        rc.x0,
        rc.x1,
        rc.y0,
        rc.y1,
        rc.k,
        rc.material,
        v3(fx(0), fx(0), fx(FX_ONE as int)),
        r.origin.z,
        r.direction.z,
        r.origin.x,
        r.direction.x,
        r.origin.y,
        r.direction.y,
        r,
        t_min,
        t_max,
    )
}

pub open spec fn xz_rect_hit(rc: XZRect, r: Ray, t_min: Fx, t_max: Fx) -> Option<HitData> {
    rect_hit(
        rc.x0,
        rc.x1,
        rc.z0,
        rc.z1,
        rc.k,
        rc.material,
        v3(fx(0), fx(FX_ONE as int), fx(0)),
        r.origin.y,
        r.direction.y,
        r.origin.x,
        r.direction.x,
        r.origin.z,
        r.direction.z,
        r,
        t_min,
        t_max,
    )
}

pub open spec fn yz_rect_hit(rc: YZRect, r: Ray, t_min: Fx, t_max: Fx) -> Option<HitData> {
    rect_hit(
        rc.y0,
        rc.y1,
        rc.z0,
        rc.z1,
        rc.k,
        rc.material,
        v3(fx(FX_ONE as int), fx(0), fx(0)),
        r.origin.x,
        r.direction.x,
        r.origin.y,
        r.direction.y,
        r.origin.z,
        r.direction.z,
        r,
        t_min,
        t_max,
    )
}

pub open spec fn xy_rect_bbox(rc: XYRect) -> AABB {
    AABB {
        min: v3(rc.x0, rc.y0, fx_sub(rc.k, fx(RECT_PAD as int))),
        max: v3(rc.x1, rc.y1, fx_add(rc.k, fx(RECT_PAD as int))),
    }
}

pub open spec fn xz_rect_bbox(rc: XZRect) -> AABB {
    AABB {
        min: v3(rc.x0, fx_sub(rc.k, fx(RECT_PAD as int)), rc.z0),
        max: v3(rc.x1, fx_add(rc.k, fx(RECT_PAD as int)), rc.z1),
    }
}

pub open spec fn yz_rect_bbox(rc: YZRect) -> AABB {
    AABB {
        min: v3(fx_sub(rc.k, fx(RECT_PAD as int)), rc.y0, rc.z0),
        max: v3(fx_add(rc.k, fx(RECT_PAD as int)), rc.y1, rc.z1),
    }
}

/// The shared executable rectangle intersection.
#[allow(clippy::too_many_arguments)]
fn rect_hit_exec<'a>(
    a0: Fx,
    a1: Fx,
    b0: Fx,
    b1: Fx,
    k: Fx,
    material: &'a Material,
    outward: Vec3,
    o_k: Fx,
    d_k: Fx,
    o_a: Fx,
    d_a: Fx,
    o_b: Fx,
    d_b: Fx,
    r: &Ray,
    t_min: Fx,
    t_max: Fx,
) -> (res: Option<HitRecord<'a>>)
    requires
        v3_wf(outward),
    ensures
        opt_data(res) == rect_hit(
            a0, a1, b0, b1, k, *material, outward, o_k, d_k, o_a, d_a, o_b, d_b, *r, t_min, t_max,
        ),
        hit_post(
            rect_hit(
                a0, a1, b0, b1, k, *material, outward, o_k, d_k, o_a, d_a, o_b, d_b, *r, t_min,
                t_max,
            ),
            true,
            material_wf(*material),
            *r,
            t_min,
            t_max,
        ),
{
    let t = k.sub(o_k).div(d_k);
    if t.bits <= t_min.bits || t.bits >= t_max.bits {
        None
    } else {
        let a = o_a.add(t.mul(d_a));
        let b = o_b.add(t.mul(d_b));
        if a.bits < a0.bits || a.bits > a1.bits || b.bits < b0.bits || b.bits > b1.bits {
            None
        } else {
            let u = a.sub(a0).div(a1.sub(a0));
            let v = b.sub(b0).div(b1.sub(b0));
            let is_front_face = r.direction.dot(outward).bits < 0;
            proof {
                if !is_front_face {
                    lemma_v3_dot_neg(r.direction, outward);
                }
            }
            Some(HitRecord::new(t, r.at(t), u, v, is_front_face, outward, material))
        }
    }
}

impl XYRect {
    pub fn hit(&self, r: &Ray, t_min: Fx, t_max: Fx) -> (res: Option<HitRecord<'_>>)
        ensures
            opt_data(res) == xy_rect_hit(*self, *r, t_min, t_max),
            hit_post(
                xy_rect_hit(*self, *r, t_min, t_max),
                true,
                material_wf(self.material),
                *r,
                t_min,
                t_max,
            ),
    {
        rect_hit_exec(
            self.x0,
            self.x1,
            self.y0,
            self.y1,
            self.k,
            &self.material,
            Vec3::new(Fx { bits: 0 }, Fx { bits: 0 }, Fx { bits: FX_ONE }),
            r.origin.z,
            r.direction.z,
            r.origin.x,
            r.direction.x,
            r.origin.y,
            r.direction.y,
            r,
            t_min,
            t_max,
        )
    }

    pub fn bounding_box(&self, _t0: Fx, _t1: Fx) -> (res: Option<AABB>)
        ensures
            res == Some(xy_rect_bbox(*self)),
    {
        let pad = Fx { bits: RECT_PAD };
        Some(
            AABB::new(
                Point3::new(self.x0, self.y0, self.k.sub(pad)),
                Point3::new(self.x1, self.y1, self.k.add(pad)),
            ),
        )
    }
}

impl XZRect {
    pub fn hit(&self, r: &Ray, t_min: Fx, t_max: Fx) -> (res: Option<HitRecord<'_>>)
        ensures
            opt_data(res) == xz_rect_hit(*self, *r, t_min, t_max),
            hit_post(
                xz_rect_hit(*self, *r, t_min, t_max),
                true,
                material_wf(self.material),
                *r,
                t_min,
                t_max,
            ),
    {
        rect_hit_exec(
            self.x0,
            self.x1,
            self.z0,
            self.z1,
            self.k,
            &self.material,
            Vec3::new(Fx { bits: 0 }, Fx { bits: FX_ONE }, Fx { bits: 0 }),
            r.origin.y,
            r.direction.y,
            r.origin.x,
            r.direction.x,
            r.origin.z,
            r.direction.z,
            r,
            t_min,
            t_max,
        )
    }

    pub fn bounding_box(&self, _t0: Fx, _t1: Fx) -> (res: Option<AABB>)
        ensures
            res == Some(xz_rect_bbox(*self)),
    {
        let pad = Fx { bits: RECT_PAD };
        Some(
            AABB::new(
                Point3::new(self.x0, self.k.sub(pad), self.z0),
                Point3::new(self.x1, self.k.add(pad), self.z1),
            ),
        )
    }
}

impl YZRect {
    pub fn hit(&self, r: &Ray, t_min: Fx, t_max: Fx) -> (res: Option<HitRecord<'_>>)
        ensures
            opt_data(res) == yz_rect_hit(*self, *r, t_min, t_max),
            hit_post(
                yz_rect_hit(*self, *r, t_min, t_max),
                true,
                material_wf(self.material),
                *r,
                t_min,
                t_max,
            ),
    {
        rect_hit_exec(
            self.y0,
            self.y1,
            self.z0,
            self.z1,
            self.k,
            &self.material,
            Vec3::new(Fx { bits: FX_ONE }, Fx { bits: 0 }, Fx { bits: 0 }),
            r.origin.x,
            r.direction.x,
            r.origin.y,
            r.direction.y,
            r.origin.z,
            r.direction.z,
            r,
            t_min,
            t_max,
        )
    }

    pub fn bounding_box(&self, _t0: Fx, _t1: Fx) -> (res: Option<AABB>)
        ensures
            res == Some(yz_rect_bbox(*self)),
    {
        let pad = Fx { bits: RECT_PAD };
        Some(
            AABB::new(
                Point3::new(self.k.sub(pad), self.y0, self.z0),
                Point3::new(self.k.add(pad), self.y1, self.z1),
            ),
        )
    }
}

} // verus!
