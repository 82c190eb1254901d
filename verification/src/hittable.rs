//! The intersectable entities: the surface-interaction record, the
//! translation and rotation wrappers, and the closed entity enum whose
//! intersection and bounding-box queries are specified exactly.
//!
//! Every intersection result satisfies `hit_post`: its parameter lies
//! strictly inside the query interval, its normal is representable,
//! and — for entities whose normals are not produced by an inexact
//! rotation — the normal faces against the incoming ray.

use vstd::prelude::*;
use crate::fixed::{
    Fx, FX_ONE, FX_MAX, FX_PI, fx, fx_add, fx_sub, fx_mul, fx_div, fx_neg, fx_min, fx_max,
    fx_from_int, fx_sin, fx_cos,
};
use crate::vec3::{
    Vec3, Point3, v3, v3_add, v3_sub, v3_neg, v3_dot, v3_wf, lemma_v3_dot_neg,
};
use crate::ray::Ray;
use crate::aabb::{AABB, surrounding_box, surrounding_box_spec};
use crate::material::{Material, material_wf};
use crate::sphere::{
    Sphere, MovingSphere, sphere_hit, moving_sphere_hit, sphere_bbox, moving_sphere_bbox,
};
use crate::aarect::{
    XYRect, XZRect, YZRect, xy_rect_hit, xz_rect_hit, yz_rect_hit, xy_rect_bbox, xz_rect_bbox,
    yz_rect_bbox,
};
use crate::boxes::BoxEntity;
use crate::hittable_list::HittableList;

verus! {

/// The value of a surface interaction: what the record holds, with the
/// governing material by value. Spec-level mirror of `HitRecord`.
pub struct HitData {
    pub p: Point3,
    pub normal: Vec3,
    pub material: Material,
    pub t: Fx,
    pub u: Fx,
    pub v: Fx,
    pub is_front_face: bool,
}

/// The result of a successful intersection; the material is shared
/// with the entity that produced the record.
pub struct HitRecord<'a> {
    pub p: Point3,
    pub normal: Vec3,
    pub material: &'a Material,
    pub t: Fx,
    pub u: Fx,
    pub v: Fx,
    pub is_front_face: bool,
}

pub open spec fn rec_data<'a>(r: HitRecord<'a>) -> HitData {
    HitData {
        p: r.p,
        normal: r.normal,
        material: *r.material,
        t: r.t,
        u: r.u,
        v: r.v,
        is_front_face: r.is_front_face,
    }
}

pub open spec fn opt_data<'a>(r: Option<HitRecord<'a>>) -> Option<HitData> {
    match r {
        Some(rec) => Some(rec_data(rec)),
        None => None,
    }
}

/// Building a record orients the stored normal once: along the outward
/// normal on a front hit, against it otherwise.
pub open spec fn mk_hit(
    t: Fx,
    spot: Point3,
    u: Fx,
    v: Fx,
    is_front_face: bool,
    outward_normal: Vec3,
    material: Material,
) -> HitData {
    HitData {
        p: spot,
        normal: if is_front_face {
            outward_normal
        } else {
            v3_neg(outward_normal)
        },
        material,
        t,
        u,
        v,
        is_front_face,
    }
}

/// What every intersection result satisfies: the parameter lies
/// strictly inside the query interval, the normal is representable,
/// when `oriented` the normal faces against the incoming ray, and when
/// `mats` (the entity's materials are all well formed) the record's
/// material is too.
pub open spec fn hit_post(
    res: Option<HitData>,
    oriented: bool,
    mats: bool,
    r: Ray,
    t_min: Fx,
    t_max: Fx,
) -> bool {
    match res {
        Some(h) => t_min.bits < h.t.bits && h.t.bits < t_max.bits && v3_wf(h.normal) && (oriented
            ==> v3_dot(r.direction, h.normal).bits <= 0) && (mats ==> material_wf(h.material)),
        None => true,
    }
}

/// Every material reachable in the entity is well formed, so every
/// record it produces carries a material the shading code may sample.
pub open spec fn entity_mat_wf(e: Hittable) -> bool
    decreases e,
{
    match e {
        Hittable::Sphere(s) => material_wf(s.material),
        Hittable::MovingSphere(s) => material_wf(s.material),
        Hittable::XYRect(rc) => material_wf(rc.material),
        Hittable::XZRect(rc) => material_wf(rc.material),
        Hittable::YZRect(rc) => material_wf(rc.material),
        Hittable::BoxEntity(b) => seq_mat_wf(b.sides.objects@),
        Hittable::Translate(tr) => entity_mat_wf(*tr.object),
        Hittable::RotateY(ro) => entity_mat_wf(*ro.object),
        Hittable::List(l) => seq_mat_wf(l.objects@),
    }
}

pub open spec fn seq_mat_wf(objs: Seq<Hittable>) -> bool
    decreases objs,
{
    forall|i: int| 0 <= i < objs.len() ==> entity_mat_wf(#[trigger] objs[i])
}

/// A translated entity: the wrapped entity shifted by an offset.
pub struct Translate {
    pub object: Box<Hittable>,
    pub offset: Vec3,
}

/// An entity rotated about the vertical axis; the sine and cosine of
/// the angle and the rotated bounding box are fixed at construction.
pub struct RotateY {
    pub object: Box<Hittable>,
    pub sin_theta: Fx,
    pub cos_theta: Fx,
    pub bbox: Option<AABB>,
}

/// The closed set of intersectable entities, dispatched by matching.
pub enum Hittable {
    Sphere(Sphere),
    MovingSphere(MovingSphere),
    XYRect(XYRect),
    XZRect(XZRect),
    YZRect(YZRect),
    BoxEntity(BoxEntity),
    Translate(Translate),
    RotateY(RotateY),
    List(HittableList),
}

/// Entities whose returned normals are re-derived against the query
/// ray: everything but a rotation wrapper, whose normal is carried
/// back through an inexact rotation. A translation re-orients its
/// child's normal itself, so it qualifies whatever it wraps.
pub open spec fn oriented_entity(e: Hittable) -> bool
    decreases e,
{
    match e {
        Hittable::RotateY(_) => false,
        Hittable::BoxEntity(b) => seq_oriented(b.sides.objects@),
        Hittable::List(l) => seq_oriented(l.objects@),
        _ => true,
    }
}

pub open spec fn seq_oriented(objs: Seq<Hittable>) -> bool
    decreases objs,
{
    forall|i: int| 0 <= i < objs.len() ==> oriented_entity(#[trigger] objs[i])
}

/// The rotated query ray of a rotation wrapper.
pub open spec fn rotate_ray(sin_theta: Fx, cos_theta: Fx, r: Ray) -> Ray {
    Ray {
        origin: Vec3 {
            x: fx_sub(fx_mul(cos_theta, r.origin.x), fx_mul(sin_theta, r.origin.z)),
            y: r.origin.y,
            z: fx_add(fx_mul(sin_theta, r.origin.x), fx_mul(cos_theta, r.origin.z)),
        },
        direction: Vec3 {
            x: fx_sub(fx_mul(cos_theta, r.direction.x), fx_mul(sin_theta, r.direction.z)),
            y: r.direction.y,
            z: fx_add(fx_mul(sin_theta, r.direction.x), fx_mul(cos_theta, r.direction.z)),
        },
        time: r.time,
    }
}

/// A record carried back out of the rotated frame: point and normal
/// rotated by the angle, the orientation re-derived against the
/// rotated ray before the normal leaves the local frame.
pub open spec fn rotate_back(sin_theta: Fx, cos_theta: Fx, rotated_r: Ray, rec: HitData) -> HitData {
    let p = Vec3 {
        x: fx_add(fx_mul(cos_theta, rec.p.x), fx_mul(sin_theta, rec.p.z)),
        y: rec.p.y,
        z: fx_add(fx_mul(fx_neg(sin_theta), rec.p.x), fx_mul(cos_theta, rec.p.z)),
    };
    let normal = Vec3 {
        x: fx_add(fx_mul(cos_theta, rec.normal.x), fx_mul(sin_theta, rec.normal.z)),
        y: rec.normal.y,
        z: fx_add(fx_mul(fx_neg(sin_theta), rec.normal.x), fx_mul(cos_theta, rec.normal.z)),
    };
    let is_front_face = v3_dot(rotated_r.direction, rec.normal).bits < 0;
    HitData {
        p,
        normal: if is_front_face {
            normal
        } else {
            v3_neg(normal)
        },
        material: rec.material,
        t: rec.t,
        u: rec.u,
        v: rec.v,
        is_front_face,
    }
}

/// A translated record: the hit point shifted back out, the
/// orientation re-derived against the moved ray's direction.
pub open spec fn translate_back(offset: Vec3, direction: Vec3, rec: HitData) -> HitData {
    let is_front_face = v3_dot(direction, rec.normal).bits < 0;
    HitData {
        p: v3_add(rec.p, offset),
        normal: if is_front_face {
            rec.normal
        } else {
            v3_neg(rec.normal)
        },
        material: rec.material,
        t: rec.t,
        u: rec.u,
        v: rec.v,
        is_front_face,
    }
}

/// The closest intersection of an entity with a ray, strictly inside
/// `(t_min, t_max)`.
pub open spec fn entity_hit(e: Hittable, r: Ray, t_min: Fx, t_max: Fx) -> Option<HitData>
    decreases e, 0int,
{
    match e {
        Hittable::Sphere(s) => sphere_hit(s, r, t_min, t_max),
        Hittable::MovingSphere(s) => moving_sphere_hit(s, r, t_min, t_max),
        Hittable::XYRect(rc) => xy_rect_hit(rc, r, t_min, t_max),
        Hittable::XZRect(rc) => xz_rect_hit(rc, r, t_min, t_max),
        Hittable::YZRect(rc) => yz_rect_hit(rc, r, t_min, t_max),
        Hittable::BoxEntity(b) => list_hit_from(b.sides.objects@, r, t_min, t_max, None, 0),
        Hittable::Translate(tr) => {
            let moved = Ray { origin: v3_sub(r.origin, tr.offset), direction: r.direction, time: r.time };
            match entity_hit(*tr.object, moved, t_min, t_max) {
                Some(rec) => Some(translate_back(tr.offset, moved.direction, rec)),
                None => None,
            }
        },
        Hittable::RotateY(ro) => {
            let rotated = rotate_ray(ro.sin_theta, ro.cos_theta, r);
            match entity_hit(*ro.object, rotated, t_min, t_max) {
                Some(rec) => Some(rotate_back(ro.sin_theta, ro.cos_theta, rotated, rec)),
                None => None,
            }
        },
        Hittable::List(l) => list_hit_from(l.objects@, r, t_min, t_max, None, 0),
    }
}

/// The sweep over a collection from index `i`: each hit strictly
/// tightens the upper bound, so the closest hit wins.
pub open spec fn list_hit_from(
    objs: Seq<Hittable>,
    r: Ray,
    t_min: Fx,
    closest: Fx,
    best: Option<HitData>,
    i: int,
) -> Option<HitData>
    decreases objs, objs.len() - i,
{
    if i < 0 || i >= objs.len() {
        best
    } else {
        match entity_hit(objs[i], r, t_min, closest) {
            Some(rec) => list_hit_from(objs, r, t_min, rec.t, Some(rec), i + 1),
            None => list_hit_from(objs, r, t_min, closest, best, i + 1),
        }
    }
}

/// A box enclosing the entity over the time range, or nothing when the
/// entity is unbounded there; absence propagates through composites.
pub open spec fn entity_bbox(e: Hittable, t0: Fx, t1: Fx) -> Option<AABB>
    decreases e, 0int,
{
    match e {
        Hittable::Sphere(s) => Some(sphere_bbox(s)),
        Hittable::MovingSphere(s) => Some(moving_sphere_bbox(s, t0, t1)),
        Hittable::XYRect(rc) => Some(xy_rect_bbox(rc)),
        Hittable::XZRect(rc) => Some(xz_rect_bbox(rc)),
        Hittable::YZRect(rc) => Some(yz_rect_bbox(rc)),
        Hittable::BoxEntity(b) => Some(AABB { min: b.box_min, max: b.box_max }),
        Hittable::Translate(tr) => match entity_bbox(*tr.object, t0, t1) {
            Some(ob) => Some(
                AABB { min: v3_add(ob.min, tr.offset), max: v3_add(ob.max, tr.offset) },
            ),
            None => None,
        },
        Hittable::RotateY(ro) => ro.bbox,
        Hittable::List(l) => list_bbox(l.objects@, t0, t1),
    }
}

pub open spec fn list_bbox(objs: Seq<Hittable>, t0: Fx, t1: Fx) -> Option<AABB>
    decreases objs, objs.len() + 1,
{
    if objs.len() == 0 {
        None
    } else {
        list_bbox_from(objs, t0, t1, None, 0)
    }
}

/// The union fold over the children's boxes; one absent child box
/// makes the whole result absent.
pub open spec fn list_bbox_from(
    objs: Seq<Hittable>,
    t0: Fx,
    t1: Fx,
    acc: Option<AABB>,
    i: int,
) -> Option<AABB>
    decreases objs, objs.len() - i,
{
    if i < 0 || i >= objs.len() {
        acc
    } else {
        match entity_bbox(objs[i], t0, t1) {
            Some(tb) => list_bbox_from(
                objs,
                t0,
                t1,
                Some(
                    match acc {
                        Some(ob) => surrounding_box_spec(ob, tb),
                        None => tb,
                    },
                ),
                i + 1,
            ),
            None => None,
        }
    }
}

impl<'a> HitRecord<'a> {
    /// Build a record; the normal is stored already oriented: along
    /// the outward normal on a front hit, against it otherwise.
    pub fn new(
        t: Fx,
        spot: Point3,
        u: Fx,
        v: Fx,
        is_front_face: bool,
        outward_normal: Vec3,
        material: &'a Material,
    ) -> (r: HitRecord<'a>)
        ensures
            rec_data(r) == mk_hit(t, spot, u, v, is_front_face, outward_normal, *material),
    {
        HitRecord {
            t,
            p: spot,
            u,
            v,
            is_front_face,
            normal: if is_front_face {
                outward_normal
            } else {
                outward_normal.neg()
            },
            material,
        }
    }
}

/// The degree-to-radian factor times the angle.
pub open spec fn radians_of(angle: Fx) -> Fx {
    fx_mul(angle, fx_div(fx(FX_PI as int), fx_from_int(180)))
}

/// The rotated-corner fold of the first `n` corners of a box: the
/// running componentwise minimum and maximum of the corners carried
/// through the rotation.
pub open spec fn rotate_corners(b: AABB, sin_theta: Fx, cos_theta: Fx, n: int) -> (Vec3, Vec3)
    decreases n,
{
    if n <= 0 {
        (
            v3(fx(FX_MAX as int), fx(FX_MAX as int), fx(FX_MAX as int)),
            v3(fx(-(FX_MAX as int)), fx(-(FX_MAX as int)), fx(-(FX_MAX as int))),
        )
    } else {
        let prev = rotate_corners(b, sin_theta, cos_theta, n - 1);
        let idx = n - 1;
        let ci = idx / 4;
        let cj = (idx / 2) % 2;
        let ck = idx % 2;
        let x = fx_add(fx_mul(fx_from_int(ci), b.max.x), fx_mul(fx_from_int(1 - ci), b.min.x));
        let y = fx_add(fx_mul(fx_from_int(cj), b.max.y), fx_mul(fx_from_int(1 - cj), b.min.y));
        let z = fx_add(fx_mul(fx_from_int(ck), b.max.z), fx_mul(fx_from_int(1 - ck), b.min.z));
        let new_x = fx_add(fx_mul(cos_theta, x), fx_mul(sin_theta, z));
        let new_z = fx_add(fx_mul(fx_neg(sin_theta), x), fx_mul(cos_theta, z));
        let tester = v3(new_x, y, new_z);
        (
            v3(
                fx_min(prev.0.x, tester.x),
                fx_min(prev.0.y, tester.y),
                fx_min(prev.0.z, tester.z),
            ),
            v3(
                fx_max(prev.1.x, tester.x),
                fx_max(prev.1.y, tester.y),
                fx_max(prev.1.z, tester.z),
            ),
        )
    }
}

impl RotateY {
    /// Wrap an entity rotated by an angle in degrees: the sine and
    /// cosine are fixed now, and the wrapped entity's bounding box over
    /// the unit time range, when it has one, is re-boxed from its
    /// eight rotated corners.
    pub fn new(p: Box<Hittable>, angle: Fx) -> (r: RotateY)
        ensures
            r.object == p,
            r.sin_theta == fx_sin(radians_of(angle)),
            r.cos_theta == fx_cos(radians_of(angle)),
            r.bbox == match entity_bbox(*p, Fx { bits: 0 }, Fx { bits: FX_ONE }) {
                Some(b) => Some(
                    AABB {
                        min: rotate_corners(b, fx_sin(radians_of(angle)), fx_cos(radians_of(angle)), 8).0,
                        max: rotate_corners(b, fx_sin(radians_of(angle)), fx_cos(radians_of(angle)), 8).1,
                    },
                ),
                None => None,
            },
    {
        let radians = angle.mul(Fx { bits: FX_PI }.div(Fx::from_int(180)));
        let sin_theta = radians.sin();
        let cos_theta = radians.cos();
        let bbox = p.bounding_box(Fx { bits: 0 }, Fx { bits: FX_ONE });

        if let Some(b) = bbox {
            let mut min = Vec3::new(Fx { bits: FX_MAX }, Fx { bits: FX_MAX }, Fx { bits: FX_MAX });
            let mut max = Vec3::new(
                Fx { bits: -FX_MAX },
                Fx { bits: -FX_MAX },
                Fx { bits: -FX_MAX },
            );
            let mut n: usize = 0;
            while n < 8
                invariant
                    n <= 8,
                    (min, max) == rotate_corners(b, sin_theta, cos_theta, n as int),
                decreases 8 - n,
            {
                let ci = n / 4;
                let cj = (n / 2) % 2;
                let ck = n % 2;
                let x = Fx::from_int(ci as i64).mul(b.max.x).add(
                    Fx::from_int((1 - ci) as i64).mul(b.min.x),
                );
                let y = Fx::from_int(cj as i64).mul(b.max.y).add(
                    Fx::from_int((1 - cj) as i64).mul(b.min.y),
                );
                let z = Fx::from_int(ck as i64).mul(b.max.z).add(
                    Fx::from_int((1 - ck) as i64).mul(b.min.z),
                );
                let new_x = cos_theta.mul(x).add(sin_theta.mul(z));
                let new_z = sin_theta.neg().mul(x).add(cos_theta.mul(z));
                let tester = Vec3::new(new_x, y, new_z);
                min = Vec3::new(min.x.fmin(tester.x), min.y.fmin(tester.y), min.z.fmin(tester.z));
                max = Vec3::new(max.x.fmax(tester.x), max.y.fmax(tester.y), max.z.fmax(tester.z));
                n = n + 1;
            }
            RotateY { object: p, sin_theta, cos_theta, bbox: Some(AABB { min, max }) }
        } else {
            RotateY { object: p, sin_theta, cos_theta, bbox: None }
        }
    }
}

impl Hittable {
    /// The closest intersection strictly inside `(t_min, t_max)`:
    /// exactly `entity_hit`, and every returned record satisfies
    /// `hit_post`.
    #[verifier::rlimit(100)]
    pub fn hit<'a>(&'a self, r: &Ray, t_min: Fx, t_max: Fx) -> (res: Option<HitRecord<'a>>)
        ensures
            opt_data(res) == entity_hit(*self, *r, t_min, t_max),
            hit_post(
                entity_hit(*self, *r, t_min, t_max),
                oriented_entity(*self),
                entity_mat_wf(*self),
                *r,
                t_min,
                t_max,
            ),
        decreases *self,
    {
        match self {
            Hittable::Sphere(s) => s.hit(r, t_min, t_max),
            Hittable::MovingSphere(s) => s.hit(r, t_min, t_max),
            Hittable::XYRect(rc) => rc.hit(r, t_min, t_max),
            Hittable::XZRect(rc) => rc.hit(r, t_min, t_max),
            Hittable::YZRect(rc) => rc.hit(r, t_min, t_max),
            Hittable::BoxEntity(b) => hit_scan(&b.sides.objects, r, t_min, t_max),
            Hittable::Translate(tr) => translate_hit(tr, r, t_min, t_max),
            Hittable::RotateY(ro) => rotate_hit(ro, r, t_min, t_max),
            Hittable::List(l) => hit_scan(&l.objects, r, t_min, t_max),
        }
    }

    /// A box enclosing the entity over the time range, or nothing:
    /// exactly `entity_bbox`.
    pub fn bounding_box(&self, t0: Fx, t1: Fx) -> (res: Option<AABB>)
        ensures
            res == entity_bbox(*self, t0, t1),
        decreases *self,
    {
        match self {
            Hittable::Sphere(s) => s.bounding_box(t0, t1),
            Hittable::MovingSphere(s) => s.bounding_box(t0, t1),
            Hittable::XYRect(rc) => rc.bounding_box(t0, t1),
            Hittable::XZRect(rc) => rc.bounding_box(t0, t1),
            Hittable::YZRect(rc) => rc.bounding_box(t0, t1),
            Hittable::BoxEntity(b) => Some(AABB::new(b.box_min, b.box_max)),
            Hittable::Translate(tr) => {
                match tr.object.bounding_box(t0, t1) {
                    Some(output_box) => Some(
                        AABB {
                            min: output_box.min.add(tr.offset),
                            max: output_box.max.add(tr.offset),
                        },
                    ),
                    None => None,
                }
            },
            Hittable::RotateY(ro) => {
                match &ro.bbox {
                    Some(b) => Some(AABB { min: b.min, max: b.max }),
                    None => None,
                }
            },
            Hittable::List(l) => bbox_scan(&l.objects, t0, t1),
        }
    }
}

/// The intersection of a translated entity: the ray is moved into the
/// child's frame, the hit point moved back out, and the orientation
/// re-derived, which restores the facing bound whatever the child is.
fn translate_hit<'a>(tr: &'a Translate, r: &Ray, t_min: Fx, t_max: Fx) -> (res: Option<
    HitRecord<'a>,
>)
    ensures
        opt_data(res) == entity_hit(Hittable::Translate(*tr), *r, t_min, t_max),
        hit_post(
            entity_hit(Hittable::Translate(*tr), *r, t_min, t_max),
            true,
            entity_mat_wf(Hittable::Translate(*tr)),
            *r,
            t_min,
            t_max,
        ),
    decreases *tr,
{
    let moved_r = Ray { origin: r.origin.sub(tr.offset), direction: r.direction, time: r.time };
    match tr.object.hit(&moved_r, t_min, t_max) {
        Some(hit_record) => {
            let is_front_face = moved_r.direction.dot(hit_record.normal).bits < 0;
            proof {
                if !is_front_face {
                    lemma_v3_dot_neg(moved_r.direction, hit_record.normal);
                }
            }
            Some(
                HitRecord {
                    p: hit_record.p.add(tr.offset),
                    normal: if is_front_face {
                        hit_record.normal
                    } else {
                        hit_record.normal.neg()
                    },
                    material: hit_record.material,
                    t: hit_record.t,
                    u: hit_record.u,
                    v: hit_record.v,
                    is_front_face,
                },
            )
        },
        None => None,
    }
}

/// The intersection of a rotated entity: the ray is rotated into the
/// child's frame and the hit carried back out.
fn rotate_hit<'a>(ro: &'a RotateY, r: &Ray, t_min: Fx, t_max: Fx) -> (res: Option<HitRecord<'a>>)
    ensures
        opt_data(res) == entity_hit(Hittable::RotateY(*ro), *r, t_min, t_max),
        hit_post(
            entity_hit(Hittable::RotateY(*ro), *r, t_min, t_max),
            false,
            entity_mat_wf(Hittable::RotateY(*ro)),
            *r,
            t_min,
            t_max,
        ),
    decreases *ro,
{
    let rotated_r = Ray {
        origin: Vec3::new(
            ro.cos_theta.mul(r.origin.x).sub(ro.sin_theta.mul(r.origin.z)),
            r.origin.y,
            ro.sin_theta.mul(r.origin.x).add(ro.cos_theta.mul(r.origin.z)),
        ),
        direction: Vec3::new(
            ro.cos_theta.mul(r.direction.x).sub(ro.sin_theta.mul(r.direction.z)),
            r.direction.y,
            ro.sin_theta.mul(r.direction.x).add(ro.cos_theta.mul(r.direction.z)),
        ),
        time: r.time,
    };
    match ro.object.hit(&rotated_r, t_min, t_max) {
        Some(record) => {
            let p = Vec3::new(
                ro.cos_theta.mul(record.p.x).add(ro.sin_theta.mul(record.p.z)),
                record.p.y,
                ro.sin_theta.neg().mul(record.p.x).add(ro.cos_theta.mul(record.p.z)),
            );
            let normal = Vec3::new(
                ro.cos_theta.mul(record.normal.x).add(ro.sin_theta.mul(record.normal.z)),
                record.normal.y,
                ro.sin_theta.neg().mul(record.normal.x).add(ro.cos_theta.mul(record.normal.z)),
            );
            let is_front_face = rotated_r.direction.dot(record.normal).bits < 0;
            Some(
                HitRecord {
                    p,
                    normal: if is_front_face {
                        normal
                    } else {
                        normal.neg()
                    },
                    material: record.material,
                    t: record.t,
                    u: record.u,
                    v: record.v,
                    is_front_face,
                },
            )
        },
        None => None,
    }
}

/// Every hit an entity reports lies strictly inside the interval it
/// was queried with.
pub proof fn lemma_hit_t_range(e: Hittable, r: Ray, t_min: Fx, t_max: Fx)
    ensures
        entity_hit(e, r, t_min, t_max) matches Some(h) ==> (t_min.bits < h.t.bits && h.t.bits
            < t_max.bits),
    decreases e, 1int, 0int,
{
    match e {
        Hittable::BoxEntity(b) => {
            lemma_list_t_range(b.sides.objects@, r, t_min, t_max, t_max, None, 0);
        },
        Hittable::Translate(tr) => {
            let moved = Ray {
                origin: v3_sub(r.origin, tr.offset),
                direction: r.direction,
                time: r.time,
            };
            lemma_hit_t_range(*tr.object, moved, t_min, t_max);
        },
        Hittable::RotateY(ro) => {
            lemma_hit_t_range(*ro.object, rotate_ray(ro.sin_theta, ro.cos_theta, r), t_min, t_max);
        },
        Hittable::List(l) => {
            lemma_list_t_range(l.objects@, r, t_min, t_max, t_max, None, 0);
        },
        _ => {},
    }
}

/// Along the sweep the carried best hit stays inside the original
/// interval, so the final result does too.
pub proof fn lemma_list_t_range(
    objs: Seq<Hittable>,
    r: Ray,
    t_min: Fx,
    up: Fx,
    closest: Fx,
    best: Option<HitData>,
    i: int,
)
    requires
        closest.bits <= up.bits,
        best matches Some(b) ==> (t_min.bits < b.t.bits && b.t.bits < up.bits),
    ensures
        list_hit_from(objs, r, t_min, closest, best, i) matches Some(h) ==> (t_min.bits < h.t.bits
            && h.t.bits < up.bits),
    decreases objs, 0int, objs.len() - i,
{
    if 0 <= i < objs.len() {
        lemma_hit_t_range(objs[i], r, t_min, closest);
        match entity_hit(objs[i], r, t_min, closest) {
            Some(h) => {
                lemma_list_t_range(objs, r, t_min, up, h.t, Some(h), i + 1);
            },
            None => {
                lemma_list_t_range(objs, r, t_min, up, closest, best, i + 1);
            },
        }
    }
}

/// Narrowing or widening the upper bound of the query interval only
/// hides or reveals hits past the bound: a hit found with the narrow
/// bound is the wide result, and a wide hit below the narrow bound is
/// the narrow result.
pub proof fn lemma_hit_mono(e: Hittable, r: Ray, t_min: Fx, c: Fx, t_max: Fx)
    requires
        c.bits <= t_max.bits,
    ensures
        (entity_hit(e, r, t_min, c) matches Some(h) ==> entity_hit(e, r, t_min, t_max) == Some(h)),
        (entity_hit(e, r, t_min, t_max) matches Some(h) ==> (h.t.bits < c.bits ==> entity_hit(
            e,
            r,
            t_min,
            c,
        ) == Some(h))),
    decreases e, 1int, 0int,
{
    match e {
        Hittable::Sphere(s) => {
            crate::sphere::lemma_sphere_hit_mono(s.center, s.radius, s.material, r, t_min, c, t_max);
        },
        Hittable::MovingSphere(s) => {
            crate::sphere::lemma_sphere_hit_mono(
                crate::sphere::moving_center(s, r.time),
                s.radius,
                s.material,
                r,
                t_min,
                c,
                t_max,
            );
        },
        Hittable::BoxEntity(b) => {
            lemma_list_mono(b.sides.objects@, r, t_min, c, None, t_max, None, 0);
        },
        Hittable::Translate(tr) => {
            let moved = Ray {
                origin: v3_sub(r.origin, tr.offset),
                direction: r.direction,
                time: r.time,
            };
            lemma_hit_mono(*tr.object, moved, t_min, c, t_max);
        },
        Hittable::RotateY(ro) => {
            lemma_hit_mono(*ro.object, rotate_ray(ro.sin_theta, ro.cos_theta, r), t_min, c, t_max);
        },
        Hittable::List(l) => {
            lemma_list_mono(l.objects@, r, t_min, c, None, t_max, None, 0);
        },
        _ => {},
    }
}

/// The sweep run with a narrowed state and the run with a wide state
/// either agree, or the narrow run misses while every wide hit lies at
/// or past the narrow bound.
pub proof fn lemma_list_mono(
    objs: Seq<Hittable>,
    r: Ray,
    t_min: Fx,
    cn: Fx,
    bn: Option<HitData>,
    cf: Fx,
    bf: Option<HitData>,
    i: int,
)
    requires
        cn.bits <= cf.bits,
        (cn == cf && bn == bf) || (bn is None && (bf matches Some(g) ==> (g.t == cf && g.t.bits
            >= cn.bits))),
    ensures
        ({
            let on = list_hit_from(objs, r, t_min, cn, bn, i);
            let of = list_hit_from(objs, r, t_min, cf, bf, i);
            on == of || (on is None && (of matches Some(g) ==> g.t.bits >= cn.bits))
        }),
    decreases objs, 0int, objs.len() - i,
{
    if 0 <= i < objs.len() {
        lemma_hit_mono(objs[i], r, t_min, cn, cf);
        lemma_hit_t_range(objs[i], r, t_min, cn);
        lemma_hit_t_range(objs[i], r, t_min, cf);
        if cn == cf && bn == bf {
            match entity_hit(objs[i], r, t_min, cn) {
                Some(h) => {
                    lemma_list_mono(objs, r, t_min, h.t, Some(h), h.t, Some(h), i + 1);
                },
                None => {
                    lemma_list_mono(objs, r, t_min, cn, bn, cf, bf, i + 1);
                },
            }
        } else {
            match entity_hit(objs[i], r, t_min, cn) {
                Some(h) => {
                    lemma_list_mono(objs, r, t_min, h.t, Some(h), h.t, Some(h), i + 1);
                },
                None => {
                    match entity_hit(objs[i], r, t_min, cf) {
                        Some(g) => {
                            lemma_list_mono(objs, r, t_min, cn, bn, g.t, Some(g), i + 1);
                        },
                        None => {
                            lemma_list_mono(objs, r, t_min, cn, bn, cf, bf, i + 1);
                        },
                    }
                },
            }
        }
    }
}

/// A sweep carrying a best hit always returns one, and never one past
/// its tightened bound.
pub proof fn lemma_sweep_result_le(
    objs: Seq<Hittable>,
    r: Ray,
    t_min: Fx,
    closest: Fx,
    best: Option<HitData>,
    i: int,
)
    requires
        best matches Some(b) ==> b.t == closest,
    ensures
        best is Some ==> list_hit_from(objs, r, t_min, closest, best, i) is Some,
        list_hit_from(objs, r, t_min, closest, best, i) matches Some(w) ==> w.t.bits
            <= closest.bits,
    decreases objs, 0int, objs.len() - i,
{
    if 0 <= i < objs.len() {
        lemma_hit_t_range(objs[i], r, t_min, closest);
        match entity_hit(objs[i], r, t_min, closest) {
            Some(h) => {
                lemma_sweep_result_le(objs, r, t_min, h.t, Some(h), i + 1);
            },
            None => {
                lemma_sweep_result_le(objs, r, t_min, closest, best, i + 1);
            },
        }
    }
}

/// From any reachable sweep state, the final result beats the
/// independent hit of any member not yet scanned.
proof fn lemma_member_bound(
    objs: Seq<Hittable>,
    r: Ray,
    t_min: Fx,
    t_max: Fx,
    closest: Fx,
    best: Option<HitData>,
    k: int,
    i: int,
)
    requires
        0 <= k <= i < objs.len(),
        closest.bits <= t_max.bits,
        (best is None && closest == t_max) || (best matches Some(b) && b.t == closest),
    ensures
        ({
            let member = entity_hit(objs[i], r, t_min, t_max);
            let whole = list_hit_from(objs, r, t_min, closest, best, k);
            member matches Some(h) ==> (whole matches Some(w) && w.t.bits <= h.t.bits)
        }),
    decreases objs, 0int, objs.len() - k,
{
    lemma_hit_t_range(objs[i], r, t_min, t_max);
    lemma_hit_t_range(objs[k], r, t_min, closest);
    if k == i {
        match entity_hit(objs[i], r, t_min, t_max) {
            Some(h) => {
                lemma_hit_mono(objs[i], r, t_min, closest, t_max);
                if h.t.bits < closest.bits {
                    lemma_sweep_result_le(objs, r, t_min, h.t, Some(h), k + 1);
                } else {
                    match entity_hit(objs[k], r, t_min, closest) {
                        Some(g) => {
                            lemma_sweep_result_le(objs, r, t_min, g.t, Some(g), k + 1);
                        },
                        None => {
                            lemma_sweep_result_le(objs, r, t_min, closest, best, k + 1);
                        },
                    }
                }
            },
            None => {},
        }
    } else {
        match entity_hit(objs[k], r, t_min, closest) {
            Some(g) => {
                lemma_member_bound(objs, r, t_min, t_max, g.t, Some(g), k + 1, i);
            },
            None => {
                lemma_member_bound(objs, r, t_min, t_max, closest, best, k + 1, i);
            },
        }
    }
}

/// The collection never returns a farther hit than any member returns
/// on its own: whenever one member of the collection hits inside the
/// query interval, the collection hits too, at a parameter no greater
/// than that member's.
pub proof fn lemma_collection_closest_hit(
    objs: Seq<Hittable>,
    r: Ray,
    t_min: Fx,
    t_max: Fx,
    i: int,
)
    requires
        0 <= i < objs.len(),
    ensures
        ({
            let member = entity_hit(objs[i], r, t_min, t_max);
            let whole = list_hit_from(objs, r, t_min, t_max, None, 0);
            member matches Some(h) ==> (whole matches Some(w) && w.t.bits <= h.t.bits)
        }),
{
    lemma_member_bound(objs, r, t_min, t_max, t_max, None, 0, i);
}

/// The closest-hit sweep over a collection: scans every child while
/// strictly tightening the upper bound of the interval.
pub(crate) fn hit_scan<'a>(objects: &'a Vec<Hittable>, r: &Ray, t_min: Fx, t_max: Fx) -> (res:
    Option<HitRecord<'a>>)
    ensures
        opt_data(res) == list_hit_from(objects@, *r, t_min, t_max, None, 0),
        hit_post(
            list_hit_from(objects@, *r, t_min, t_max, None, 0),
            seq_oriented(objects@),
            seq_mat_wf(objects@),
            *r,
            t_min,
            t_max,
        ),
    decreases objects@,
{
    let mut temp_rec: Option<HitRecord<'a>> = None;
    let mut closest_so_far = t_max;
    let mut i: usize = 0;
    while i < objects.len()
        invariant
            i <= objects@.len(),
            list_hit_from(objects@, *r, t_min, closest_so_far, opt_data(temp_rec), i as int)
                == list_hit_from(objects@, *r, t_min, t_max, None, 0),
            temp_rec is None ==> closest_so_far == t_max,
            temp_rec matches Some(b) ==> b.t == closest_so_far && t_min.bits < b.t.bits
                && b.t.bits < t_max.bits && v3_wf(b.normal) && (seq_oriented(objects@) ==> v3_dot(
                r.direction,
                b.normal,
            ).bits <= 0) && (seq_mat_wf(objects@) ==> material_wf(*b.material)),
        decreases objects@.len() - i,
    {
        let object = &objects[i];
        proof {
            assert(decreases_to!(objects@ => objects@[i as int]));
        }
        match object.hit(r, t_min, closest_so_far) {
            Some(rec) => {
                closest_so_far = rec.t;
                temp_rec = Some(rec);
            },
            None => {},
        }
        i = i + 1;
    }
    temp_rec
}

/// The bounding-box fold over a collection: the union of the
/// children's boxes, absent as soon as one child's box is absent or
/// the collection is empty.
pub(crate) fn bbox_scan(objects: &Vec<Hittable>, t0: Fx, t1: Fx) -> (res: Option<AABB>)
    ensures
        res == list_bbox(objects@, t0, t1),
    decreases objects@,
{
    if objects.len() == 0 {
        return None;
    }
    let mut output_box: Option<AABB> = None;
    let mut i: usize = 0;
    while i < objects.len()
        invariant
            i <= objects@.len(),
            objects@.len() > 0,
            list_bbox_from(objects@, t0, t1, output_box, i as int)
                == list_bbox_from(objects@, t0, t1, None, 0),
        decreases objects@.len() - i,
    {
        let object = &objects[i];
        proof {
            assert(decreases_to!(objects@ => objects@[i as int]));
        }
        match object.bounding_box(t0, t1) {
            Some(temp_box) => {
                output_box = match output_box {
                    Some(obox) => Some(surrounding_box(&obox, &temp_box)),
                    None => Some(temp_box),
                };
            },
            None => {
                return None;
            },
        }
        i = i + 1;
    }
    output_box
}

} // verus!
