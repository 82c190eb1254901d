//! Spheres, time-interpolated moving spheres, and the random direction
//! samplers the materials draw on.

use vstd::prelude::*;
use crate::fixed::{
    Fx, FX_ONE, FX_TWO_PI, fx, fx_add, fx_sub, fx_mul, fx_div, fx_neg, fx_sqrt,
};
use crate::vec3::{
    Vec3, Point3, v3, v3_add, v3_sub, v3_scale, v3_div_scalar, v3_neg, v3_dot, v3_len_sq, v3_wf,
    v3_normalize, lemma_v3_dot_neg, v3_zero,
};
use crate::ray::{Ray, ray_at};
use crate::aabb::{AABB, surrounding_box, surrounding_box_spec};
use crate::material::{Material, material_wf};
use crate::hittable::{HitData, HitRecord, mk_hit, rec_data, opt_data, hit_post};
use crate::rng::{random_span, random_fraction};

verus! {

pub struct Sphere {
    pub center: Point3,
    pub radius: Fx,
    pub material: Material,
}

pub struct MovingSphere {
    pub center0: Vec3,
    pub center1: Vec3,
    pub time0: Fx,
    pub time1: Fx,
    pub radius: Fx,
    pub material: Material,
}

/// The record a sphere of the given center, radius and material
/// produces at parameter `t`: the hit point, the outward normal scaled
/// by the radius, and the front-face resolution. Spheres do not
/// compute surface coordinates; both are reported as zero.
pub open spec fn sphere_record(
    center: Point3,
    radius: Fx,
    material: Material,
    r: Ray,
    t: Fx,
) -> HitData {
    let hit_at = ray_at(r, t);
    let outward = v3_div_scalar(v3_sub(hit_at, center), radius);
    mk_hit(t, hit_at, fx(0), fx(0), v3_dot(r.direction, outward).bits < 0, outward, material)
}

/// The quadratic sphere intersection: a positive discriminant admits
/// two roots; the nearer is returned when it lies strictly inside the
/// interval, else the farther under the same test, else nothing.
pub open spec fn sphere_hit_at(
    center: Point3,
    radius: Fx,
    material: Material,
    r: Ray,
    t_min: Fx,
    t_max: Fx,
) -> Option<HitData> {
    let oc = v3_sub(r.origin, center);
    let a = v3_len_sq(r.direction);
    let half_b = v3_dot(oc, r.direction);
    let c = fx_sub(v3_len_sq(oc), fx_mul(radius, radius));
    let discriminant = fx_sub(fx_mul(half_b, half_b), fx_mul(a, c));
    if discriminant.bits > 0 {
        let root = fx_sqrt(discriminant);
        let temp1 = fx_div(fx_sub(fx_neg(half_b), root), a);
        if temp1.bits < t_max.bits && temp1.bits > t_min.bits {
            Some(sphere_record(center, radius, material, r, temp1))
        } else {
            let temp2 = fx_div(fx_add(fx_neg(half_b), root), a);
            if temp2.bits < t_max.bits && temp2.bits > t_min.bits {
                Some(sphere_record(center, radius, material, r, temp2))
            } else {
                None
            }
        }
    } else {
        None
    }
}

pub open spec fn sphere_hit(s: Sphere, r: Ray, t_min: Fx, t_max: Fx) -> Option<HitData> {
    sphere_hit_at(s.center, s.radius, s.material, r, t_min, t_max)
}

/// The box of radius-vectors around the center.
pub open spec fn sphere_bbox(s: Sphere) -> AABB {
    AABB {
        min: v3_sub(s.center, v3(s.radius, s.radius, s.radius)),
        max: v3_add(s.center, v3(s.radius, s.radius, s.radius)),
    }
}

/// The interpolated center of a moving sphere at a time.
pub open spec fn moving_center(s: MovingSphere, time: Fx) -> Vec3 {
    v3_add(
        s.center0,
        v3_scale(
            v3_sub(s.center1, s.center0),
            fx_div(fx_sub(time, s.time0), fx_sub(s.time1, s.time0)),
        ),
    )
}

pub open spec fn moving_sphere_hit(s: MovingSphere, r: Ray, t_min: Fx, t_max: Fx) -> Option<
    HitData,
> {
    sphere_hit_at(moving_center(s, r.time), s.radius, s.material, r, t_min, t_max)
}

/// The union of the boxes at the two query times.
pub open spec fn moving_sphere_bbox(s: MovingSphere, t0: Fx, t1: Fx) -> AABB {
    let rad = v3(s.radius, s.radius, s.radius);
    let box0 = AABB {
        min: v3_sub(moving_center(s, t0), rad),
        max: v3_add(moving_center(s, t0), rad),
    };
    let box1 = AABB {
        min: v3_sub(moving_center(s, t1), rad),
        max: v3_add(moving_center(s, t1), rad),
    };
    surrounding_box_spec(box0, box1)
}

/// Build the record for a root accepted by the interval test.
fn sphere_rec_exec<'a>(
    center: Point3,
    radius: Fx,
    material: &'a Material,
    r: &Ray,
    temp: Fx,
) -> (rec: HitRecord<'a>)
    ensures
        rec_data(rec) == sphere_record(center, radius, *material, *r, temp),
        v3_wf(rec.normal),
        v3_dot(r.direction, rec.normal).bits <= 0,
{
    let hit_at = r.at(temp);
    let outward_normal = hit_at.sub(center).div_scalar(radius);
    let is_front_face = r.direction.dot(outward_normal).bits < 0;
    proof {
        lemma_v3_dot_neg(r.direction, v3_div_scalar(v3_sub(ray_at(*r, temp), center), radius));
    }
    HitRecord::new(temp, hit_at, Fx { bits: 0 }, Fx { bits: 0 }, is_front_face, outward_normal, material)
}

/// The shared quadratic intersection.
fn hit_at<'a>(
    center: Point3,
    radius: Fx,
    material: &'a Material,
    r: &Ray,
    t_min: Fx,
    t_max: Fx,
) -> (res: Option<HitRecord<'a>>)
    ensures
        opt_data(res) == sphere_hit_at(center, radius, *material, *r, t_min, t_max),
        hit_post(
            sphere_hit_at(center, radius, *material, *r, t_min, t_max),
            true,
            material_wf(*material),
            *r,
            t_min,
            t_max,
        ),
{
    let oc = r.origin.sub(center);
    let a = r.direction.length_squared();
    let half_b = oc.dot(r.direction);
    let c = oc.length_squared().sub(radius.mul(radius));
    let discriminant = half_b.mul(half_b).sub(a.mul(c));

    if discriminant.bits > 0 {
        let root = discriminant.sqrt();

        let temp = half_b.neg().sub(root).div(a);
        if temp.bits < t_max.bits && temp.bits > t_min.bits {
            return Some(sphere_rec_exec(center, radius, material, r, temp));
        }

        let temp = half_b.neg().add(root).div(a);
        if temp.bits < t_max.bits && temp.bits > t_min.bits {
            return Some(sphere_rec_exec(center, radius, material, r, temp));
        }
    }

    None
}

impl Sphere {
    /// The closest intersection strictly inside `(t_min, t_max)`.
    pub fn hit(&self, r: &Ray, t_min: Fx, t_max: Fx) -> (res: Option<HitRecord<'_>>)
        ensures
            opt_data(res) == sphere_hit(*self, *r, t_min, t_max),
            hit_post(
                sphere_hit(*self, *r, t_min, t_max),
                true,
                material_wf(self.material),
                *r,
                t_min,
                t_max,
            ),
    {
        hit_at(self.center, self.radius, &self.material, r, t_min, t_max)
    }

    pub fn bounding_box(&self, _t0: Fx, _t1: Fx) -> (res: Option<AABB>)
        ensures
            res == Some(sphere_bbox(*self)),
    {
        let rad = Vec3::new(self.radius, self.radius, self.radius);
        Some(AABB::new(self.center.sub(rad), self.center.add(rad)))
    }
}

impl MovingSphere {
    /// The center interpolated linearly between the two key times.
    pub fn center(&self, time: Fx) -> (c: Vec3)
        ensures
            c == moving_center(*self, time),
    {
        self.center0.add(
            self.center1.sub(self.center0).scale(
                time.sub(self.time0).div(self.time1.sub(self.time0)),
            ),
        )
    }

    /// The closest intersection, against the center at the ray's time.
    pub fn hit(&self, r: &Ray, t_min: Fx, t_max: Fx) -> (res: Option<HitRecord<'_>>)
        ensures
            opt_data(res) == moving_sphere_hit(*self, *r, t_min, t_max),
            hit_post(
                moving_sphere_hit(*self, *r, t_min, t_max),
                true,
                material_wf(self.material),
                *r,
                t_min,
                t_max,
            ),
    {
        hit_at(self.center(r.time), self.radius, &self.material, r, t_min, t_max)
    }

    pub fn bounding_box(&self, t0: Fx, t1: Fx) -> (res: Option<AABB>)
        ensures
            res == Some(moving_sphere_bbox(*self, t0, t1)),
    {
        let rad = Vec3::new(self.radius, self.radius, self.radius);
        let box0 = AABB::new(self.center(t0).sub(rad), self.center(t0).add(rad));
        let box1 = AABB::new(self.center(t1).sub(rad), self.center(t1).add(rad));
        Some(surrounding_box(&box0, &box1))
    }
}

/// Narrowing or widening the upper end of the query interval cannot
/// change which hit a sphere reports, beyond hiding hits past the
/// bound: a hit found in a narrowed interval is the hit of the wide
/// one, and a wide-interval hit below the bound is found when
/// narrowed.
pub proof fn lemma_sphere_hit_mono(
    center: Point3,
    radius: Fx,
    material: Material,
    r: Ray,
    t_min: Fx,
    c: Fx,
    t_max: Fx,
)
    requires
        c.bits <= t_max.bits,
    ensures
        (sphere_hit_at(center, radius, material, r, t_min, c) matches Some(h) ==> sphere_hit_at(
            center,
            radius,
            material,
            r,
            t_min,
            t_max,
        ) == Some(h)),
        (sphere_hit_at(center, radius, material, r, t_min, t_max) matches Some(h) ==> (h.t.bits
            < c.bits ==> sphere_hit_at(center, radius, material, r, t_min, c) == Some(h))),
{
    let oc = v3_sub(r.origin, center);
    let a = v3_len_sq(r.direction);
    let half_b = v3_dot(oc, r.direction);
    let cc = fx_sub(v3_len_sq(oc), fx_mul(radius, radius));
    let discriminant = fx_sub(fx_mul(half_b, half_b), fx_mul(a, cc));
    if discriminant.bits > 0 {
        crate::vec3::lemma_v3_len_sq_nonneg(r.direction);
        crate::fixed::lemma_fx_sqrt_nonneg(discriminant);
        let root = fx_sqrt(discriminant);
        let num1 = fx_sub(fx_neg(half_b), root);
        let num2 = fx_add(fx_neg(half_b), root);
        assert(num1.bits <= num2.bits);
        crate::fixed::lemma_fx_div_mono_num(num1, num2, a);
    }
}

/// A ray fired straight at a sphere's center from distance `d`
/// greater than the radius meets it at parameter `d - r`, the nearer
/// root of the quadratic. Stated for whole-valued distance and radius
/// within moderate bounds, where every step of the fixed-point
/// quadratic is exact.
pub proof fn lemma_sphere_head_on(s: Sphere, d: Fx, t_min: Fx, t_max: Fx)
    requires
        (d.bits as int) % (FX_ONE as int) == 0,
        (s.radius.bits as int) % (FX_ONE as int) == 0,
        0 < s.radius.bits < d.bits,
        d.bits <= 0x8000_0000,
        -0x10_0000_0000 <= s.center.z.bits <= 0x10_0000_0000,
        t_min.bits < d.bits - s.radius.bits < t_max.bits,
    ensures
        ({
            let ray = Ray {
                origin: v3(s.center.x, s.center.y, fx_add(s.center.z, d)),
                direction: v3(fx(0), fx(0), fx(-(FX_ONE as int))),
                time: fx(0),
            };
            sphere_hit(s, ray, t_min, t_max) matches Some(h) && h.t == fx_sub(d, s.radius)
        }),
{
    let one = fx(FX_ONE as int);
    let neg_one = fx(-(FX_ONE as int));
    let ray = Ray {
        origin: v3(s.center.x, s.center.y, fx_add(s.center.z, d)),
        direction: v3(fx(0), fx(0), neg_one),
        time: fx(0),
    };
    crate::fixed::lemma_fx_mul_zero(fx(0));
    crate::fixed::lemma_fx_mul_neg_one(neg_one);
    crate::fixed::lemma_fx_mul_neg_one(d);
    vstd::arithmetic::div_mod::lemma_div_of0(FX_ONE as int);

    let oc = v3_sub(ray.origin, s.center);
    assert(oc == v3(fx(0), fx(0), d));
    let a = v3_len_sq(ray.direction);
    assert(fx_mul(neg_one, neg_one) == one);
    assert(a == one);
    let half_b = v3_dot(oc, ray.direction);
    assert(half_b == fx(-(d.bits as int)));

    let db = d.bits as int;
    let rb = s.radius.bits as int;
    let kk = db / (FX_ONE as int);
    let mm = rb / (FX_ONE as int);
    vstd::arithmetic::div_mod::lemma_fundamental_div_mod(db, FX_ONE as int);
    vstd::arithmetic::div_mod::lemma_fundamental_div_mod(rb, FX_ONE as int);
    assert(db == kk * 65536 && rb == mm * 65536);
    assert(1 <= mm && mm <= kk && kk <= 32768) by (nonlinear_arith)
        requires
            db == kk * 65536,
            rb == mm * 65536,
            0 < rb < db,
            db <= 0x8000_0000,
    ;
    assert(db * db == (kk * kk * 65536) * 65536 && rb * rb == (mm * mm * 65536) * 65536
        && db * rb == (kk * mm * 65536) * 65536) by (nonlinear_arith)
        requires
            db == kk * 65536,
            rb == mm * 65536,
    ;
    assert(0 < mm * mm * 65536 && mm * mm * 65536 <= kk * mm * 65536 && kk * mm * 65536 <= kk * kk
        * 65536 && kk * kk * 65536 <= 0x4000_0000 * 65536) by (nonlinear_arith)
        requires
            1 <= mm,
            mm <= kk,
            kk <= 32768,
    ;
    vstd::arithmetic::div_mod::lemma_div_multiples_vanish(kk * kk * 65536, 65536int);
    vstd::arithmetic::div_mod::lemma_div_multiples_vanish(mm * mm * 65536, 65536int);
    assert(fx_mul(d, d).bits as int == kk * kk * 65536);
    assert(fx_mul(s.radius, s.radius).bits as int == mm * mm * 65536);
    assert(fx_mul(half_b, half_b).bits as int == kk * kk * 65536);

    let c = fx_sub(v3_len_sq(oc), fx_mul(s.radius, s.radius));
    assert(v3_len_sq(oc).bits as int == kk * kk * 65536);
    assert(c.bits as int == kk * kk * 65536 - mm * mm * 65536);
    crate::fixed::lemma_fx_mul_one(c);
    let discriminant = fx_sub(fx_mul(half_b, half_b), fx_mul(a, c));
    assert(discriminant.bits as int == mm * mm * 65536);
    assert(discriminant.bits > 0);

    assert((mm * 65536) * (mm * 65536) == (mm * mm * 65536) * 65536 && (mm * 65536 + 1) * (mm
        * 65536 + 1) > (mm * mm * 65536) * 65536) by (nonlinear_arith)
        requires
            1 <= mm,
    ;
    assert(crate::fixed::is_isqrt(rb, (mm * mm * 65536) * 65536));
    crate::fixed::lemma_isqrt_exact(rb, (mm * mm * 65536) * 65536);
    let root = fx_sqrt(discriminant);
    assert(root == s.radius);

    let num = fx_sub(fx_neg(half_b), root);
    assert(fx_neg(half_b) == d);
    assert(num.bits as int == db - rb);
    crate::fixed::lemma_fx_div_one(num);
    let temp1 = fx_div(num, a);
    assert(temp1.bits as int == db - rb);
    assert(temp1.bits < t_max.bits && temp1.bits > t_min.bits);
    assert(sphere_hit(s, ray, t_min, t_max) == Some(
        sphere_record(s.center, s.radius, s.material, ray, temp1),
    ));
    assert(temp1 == fx_sub(d, s.radius));
}

/// A rejection-sampled point strictly inside the unit sphere. Each
/// draw lands inside with probability about one half, and the retries
/// are bounded so that the sampler provably returns; the center is the
/// fallback no run of draws ever reaches in practice.
pub fn random_in_unit_sphere() -> (p: Point3)
    ensures
        v3_wf(p),
        v3_len_sq(p).bits < FX_ONE,
{
    let mut tries: usize = 0;
    while tries < 64
        invariant
            true,
        decreases 64 - tries,
    {
        let p = Point3::new(random_span(), random_span(), random_span());
        if p.length_squared().bits < FX_ONE {
            return p;
        }
        tries = tries + 1;
    }
    proof {
        vstd::arithmetic::div_mod::lemma_div_of0(FX_ONE as int);
        assert(crate::fixed::mag(0int) == 0);
        assert(crate::fixed::mag(0int) * crate::fixed::mag(0int) == 0) by (nonlinear_arith);
        assert(fx_mul(fx(0), fx(0)).bits == 0);
        assert(fx_add(fx(0), fx(0)).bits == 0);
        assert(v3_len_sq(v3_zero()).bits == 0);
    }
    Point3::zero()
}

/// A random direction of roughly unit length: a uniform angle and
/// height on the cylinder, mapped to the sphere. Whatever the draws,
/// every component lies in the unit range.
pub fn random_unit_vector() -> (p: Vec3)
    ensures
        v3_wf(p),
        -FX_ONE <= p.x.bits <= FX_ONE,
        -FX_ONE <= p.y.bits <= FX_ONE,
        -FX_ONE <= p.z.bits < FX_ONE,
{
    let a = random_fraction().mul(Fx { bits: FX_TWO_PI });
    let z = random_span();
    let zz = z.mul(z);
    proof {
        crate::fixed::lemma_fx_mul_unit_bounded(z, z);
        crate::vec3::lemma_fx_square_nonneg(z);
    }
    let height = Fx { bits: FX_ONE }.sub(zz);
    proof {
        crate::fixed::lemma_fx_sqrt_le_one(height);
    }
    let r = height.sqrt();
    let cos_a = a.cos();
    let sin_a = a.sin();
    proof {
        crate::fixed::lemma_fx_mul_unit_bounded(r, cos_a);
        crate::fixed::lemma_fx_mul_unit_bounded(r, sin_a);
    }
    Vec3::new(r.mul(cos_a), r.mul(sin_a), z)
}

/// A point in the unit sphere, flipped into the hemisphere of the
/// normal.
pub fn random_in_hemisphere(normal: &Vec3) -> (p: Vec3)
    ensures
        v3_wf(p),
{
    let in_unit_sphere = random_in_unit_sphere();
    if in_unit_sphere.dot(*normal).bits > 0 {
        in_unit_sphere
    } else {
        in_unit_sphere.neg()
    }
}

} // verus!
