//! The axis-aligned box: a composite of six rectangles, one per face,
//! that delegates intersection to its side collection.

use vstd::prelude::*;
use crate::fixed::Fx;
use crate::vec3::Point3;
use crate::ray::Ray;
use crate::aabb::AABB;
use crate::material::{Material, material_wf, material_eq, lemma_material_eq_refl};
use crate::aarect::{XYRect, XZRect, YZRect};
use crate::hittable::{Hittable, HitRecord, opt_data, list_hit_from, hit_post, hit_scan, seq_oriented, seq_mat_wf, entity_mat_wf};
use crate::hittable_list::HittableList;

verus! {

pub struct BoxEntity {
    pub box_min: Point3,
    pub box_max: Point3,
    pub sides: HittableList,
}

/// The six sides of a box between the corners `p0` and `p1`: a pair of
/// rectangles orthogonal to each axis, at the two corner coordinates,
/// each carrying the given material.
pub open spec fn box_sides_ok(b: BoxEntity, p0: Point3, p1: Point3, material: Material) -> bool {
    let s = b.sides.objects@;
    &&& s.len() == 6
    &&& s[0] matches Hittable::XYRect(rc0) && rc0.x0 == p0.x && rc0.x1 == p1.x && rc0.y0 == p0.y
        && rc0.y1 == p1.y && rc0.k == p1.z && material_eq(rc0.material, material)
    &&& s[1] matches Hittable::XYRect(rc1) && rc1.x0 == p0.x && rc1.x1 == p1.x && rc1.y0 == p0.y
        && rc1.y1 == p1.y && rc1.k == p0.z && material_eq(rc1.material, material)
    &&& s[2] matches Hittable::XZRect(rc2) && rc2.x0 == p0.x && rc2.x1 == p1.x && rc2.z0 == p0.z
        && rc2.z1 == p1.z && rc2.k == p1.y && material_eq(rc2.material, material)
    &&& s[3] matches Hittable::XZRect(rc3) && rc3.x0 == p0.x && rc3.x1 == p1.x && rc3.z0 == p0.z
        && rc3.z1 == p1.z && rc3.k == p0.y && material_eq(rc3.material, material)
    &&& s[4] matches Hittable::YZRect(rc4) && rc4.y0 == p0.y && rc4.y1 == p1.y && rc4.z0 == p0.z
        && rc4.z1 == p1.z && rc4.k == p1.x && material_eq(rc4.material, material)
    &&& s[5] matches Hittable::YZRect(rc5) && rc5.y0 == p0.y && rc5.y1 == p1.y && rc5.z0 == p0.z
        && rc5.z1 == p1.z && rc5.k == p0.x && material_eq(rc5.material, material)
}

impl BoxEntity {
    /// A box from two opposite corners: six face rectangles, each
    /// carrying the given material.
    pub fn new(p0: Point3, p1: Point3, material: Material) -> (r: BoxEntity)
        ensures
            r.box_min == p0,
            r.box_max == p1,
            box_sides_ok(r, p0, p1, material),
            material_wf(material) ==> seq_mat_wf(r.sides.objects@),
    {
        proof {
            lemma_material_eq_refl(material);
        }
        let mut sides = HittableList::new();

        sides.add(Hittable::XYRect(XYRect {
            x0: p0.x, x1: p1.x, y0: p0.y, y1: p1.y, k: p1.z, material: material.duplicate(),
        }));
        sides.add(Hittable::XYRect(XYRect {
            x0: p0.x, x1: p1.x, y0: p0.y, y1: p1.y, k: p0.z, material: material.duplicate(),
        }));

        sides.add(Hittable::XZRect(XZRect {
            x0: p0.x, x1: p1.x, z0: p0.z, z1: p1.z, k: p1.y, material: material.duplicate(),
        }));
        sides.add(Hittable::XZRect(XZRect {
            x0: p0.x, x1: p1.x, z0: p0.z, z1: p1.z, k: p0.y, material: material.duplicate(),
        }));

        sides.add(Hittable::YZRect(YZRect {
            y0: p0.y, y1: p1.y, z0: p0.z, z1: p1.z, k: p1.x, material: material.duplicate(),
        }));
        sides.add(Hittable::YZRect(YZRect {
            y0: p0.y, y1: p1.y, z0: p0.z, z1: p1.z, k: p0.x, material,
        }));

        BoxEntity { box_min: p0, box_max: p1, sides }
    }

    /// Intersection delegates to the side collection.
    pub fn hit<'a>(&'a self, r: &Ray, t_min: Fx, t_max: Fx) -> (res: Option<HitRecord<'a>>)
        ensures
            opt_data(res) == list_hit_from(self.sides.objects@, *r, t_min, t_max, None, 0),
            hit_post(
                list_hit_from(self.sides.objects@, *r, t_min, t_max, None, 0),
                seq_oriented(self.sides.objects@),
                seq_mat_wf(self.sides.objects@),
                *r,
                t_min,
                t_max,
            ),
    {
        hit_scan(&self.sides.objects, r, t_min, t_max)
    }

    /// The stored corner pair.
    pub fn bounding_box(&self, _t0: Fx, _t1: Fx) -> (res: Option<AABB>)
        ensures
            res == Some(AABB { min: self.box_min, max: self.box_max }),
    {
        Some(AABB::new(self.box_min, self.box_max))
    }
}

} // verus!
