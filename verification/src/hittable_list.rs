//! The unordered collection of entities: the closest-hit sweep and the
//! union of the children's bounding boxes.

use vstd::prelude::*;
use crate::fixed::Fx;
use crate::ray::Ray;
use crate::aabb::AABB;
use crate::hittable::{
    Hittable, HitRecord, opt_data, list_hit_from, list_bbox, hit_scan, bbox_scan, hit_post,
    seq_oriented, seq_mat_wf,
};

verus! {

pub struct HittableList {
    pub objects: Vec<Hittable>,
}

impl HittableList {
    /// An empty collection.
    pub fn new() -> (r: HittableList)
        ensures
            r.objects@.len() == 0,
    {
        HittableList { objects: Vec::new() }
    }

    /// Append an entity; the children keep their insertion order.
    pub fn add(&mut self, object: Hittable)
        ensures
            final(self).objects@ == old(self).objects@.push(object),
    {
        self.objects.push(object);
    }

    /// The closest intersection among all children strictly inside
    /// `(t_min, t_max)`: the sweep tightens the upper bound on every
    /// hit, so the nearest hit wins regardless of order.
    pub fn hit<'a>(&'a self, r: &Ray, t_min: Fx, t_max: Fx) -> (res: Option<HitRecord<'a>>)
        ensures
            opt_data(res) == list_hit_from(self.objects@, *r, t_min, t_max, None, 0),
            hit_post(
                list_hit_from(self.objects@, *r, t_min, t_max, None, 0),
                seq_oriented(self.objects@),
                seq_mat_wf(self.objects@),
                *r,
                t_min,
                t_max,
            ),
    {
        hit_scan(&self.objects, r, t_min, t_max)
    }

    /// The union of the children's boxes over the time range; absent
    /// when the collection is empty or any child is unbounded.
    pub fn bounding_box(&self, t0: Fx, t1: Fx) -> (res: Option<AABB>)
        ensures
            res == list_bbox(self.objects@, t0, t1),
    {
        bbox_scan(&self.objects, t0, t1)
    }
}

} // verus!
