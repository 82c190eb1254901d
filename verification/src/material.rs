//! Materials: diffuse, specular with roughness, refractive with the
//! Schlick reflectance, and a light emitter. Scattering consumes the
//! library's random samplers; each contract states what holds of every
//! outcome of the randomness.

use vstd::prelude::*;
use crate::fixed::{
    Fx, FX_ONE, fx, fx_add, fx_sub, fx_mul, fx_div, fx_abs, fx_sqrt, fx_min, fx_max, fx_from_int,
};
use crate::vec3::{
    Vec3, Point3, v3, v3_add, v3_sub, v3_scale, v3_neg, v3_dot, v3_len_sq, v3_normalize,
};
use crate::ray::Ray;
use crate::color::{Color, color_in_unit};
use crate::texture::{
    Texture, SolidColor, texture_value, texture_wf, texture_unit, texture_eq, lemma_texture_eq_refl,
    lemma_texture_eq_value,
};
use crate::hittable::HitRecord;
use crate::sphere::{random_in_unit_sphere, random_unit_vector};
use crate::rng::random_fraction;

verus! {

pub struct Lambertian {
    pub albedo: Texture,
}

pub struct Metal {
    pub albedo: Color,
    pub fuzzy: Fx,
}

pub struct Dielectric {
    pub ref_idx: Fx,
}

pub struct DiffuseLight {
    pub emit: Texture,
}

/// The closed set of material variants, dispatched by matching.
pub enum Material {
    Lambertian(Lambertian),
    Metal(Metal),
    Dielectric(Dielectric),
    DiffuseLight(DiffuseLight),
}

/// A material whose textures the sampler may evaluate.
pub open spec fn material_wf(m: Material) -> bool {
    match m {
        Material::Lambertian(l) => texture_wf(l.albedo),
        Material::Metal(_) => true,
        Material::Dielectric(_) => true,
        Material::DiffuseLight(d) => texture_wf(d.emit),
    }
}

/// Every albedo of the material lies in the unit range, so scattering
/// never amplifies energy.
pub open spec fn material_unit(m: Material) -> bool {
    match m {
        Material::Lambertian(l) => texture_unit(l.albedo),
        Material::Metal(mt) => color_in_unit(mt.albedo),
        Material::Dielectric(_) => true,
        Material::DiffuseLight(_) => true,
    }
}

/// Two materials with the same contents: same variant, and the albedo
/// or emission texture holds the same stored data, so emission and
/// sampled attenuation agree everywhere.
pub open spec fn material_eq(a: Material, b: Material) -> bool {
    match (a, b) {
        (Material::Lambertian(l1), Material::Lambertian(l2)) => texture_eq(l1.albedo, l2.albedo),
        (Material::Metal(m1), Material::Metal(m2)) => m1.albedo == m2.albedo && m1.fuzzy
            == m2.fuzzy,
        (Material::Dielectric(d1), Material::Dielectric(d2)) => d1.ref_idx == d2.ref_idx,
        (Material::DiffuseLight(e1), Material::DiffuseLight(e2)) => texture_eq(e1.emit, e2.emit),
        _ => false,
    }
}

/// Content equality is reflexive.
pub proof fn lemma_material_eq_refl(a: Material)
    ensures
        material_eq(a, a),
{
    match a {
        Material::Lambertian(l) => lemma_texture_eq_refl(l.albedo),
        Material::DiffuseLight(d) => lemma_texture_eq_refl(d.emit),
        _ => {},
    }
}

/// Materials with the same contents agree everywhere: the same
/// emission at every coordinate, and the same well-formedness and
/// unit-range status.
pub proof fn lemma_material_eq_emitted(a: Material, b: Material, u: Fx, v: Fx, p: Point3)
    requires
        material_eq(a, b),
    ensures
        emitted_spec(a, u, v, p) == emitted_spec(b, u, v, p),
        material_wf(a) == material_wf(b),
        material_unit(a) == material_unit(b),
{
    match (a, b) {
        (Material::Lambertian(l1), Material::Lambertian(l2)) => {
            lemma_texture_eq_value(l1.albedo, l2.albedo, u, v, p);
        },
        (Material::DiffuseLight(e1), Material::DiffuseLight(e2)) => {
            lemma_texture_eq_value(e1.emit, e2.emit, u, v, p);
        },
        _ => {},
    }
}

/// The light a material emits: zero except for the light emitter,
/// which reports its texture's color unconditionally.
pub open spec fn emitted_spec(m: Material, u: Fx, v: Fx, p: Point3) -> Color {
    match m {
        Material::DiffuseLight(d) => texture_value(d.emit, u, v, p),
        _ => Color(v3(fx(0), fx(0), fx(0))),
    }
}

/// Mirror reflection of `v` about the normal `n`.
pub open spec fn reflect_spec(v: Vec3, n: Vec3) -> Vec3 {
    v3_sub(v, v3_scale(n, fx_mul(fx_from_int(2), v3_dot(v, n))))
}

/// The vector refraction of unit `uv` through the normal `n` with the
/// given ratio of refraction indices.
pub open spec fn refract_spec(uv: Vec3, n: Vec3, etai_over_etat: Fx) -> Vec3 {
    let cos_theta = v3_dot(v3_neg(uv), n);
    let r_out_perp = v3_scale(v3_add(uv, v3_scale(n, cos_theta)), etai_over_etat);
    let r_out_parallel = v3_neg(
        v3_scale(n, fx_sqrt(fx_abs(fx_sub(fx(FX_ONE as int), v3_len_sq(r_out_perp))))),
    );
    v3_add(r_out_perp, r_out_parallel)
}

/// The shape of every direction a metal can scatter into: the mirror
/// reflection of the unit incoming direction, perturbed by the
/// roughness times a point strictly inside the unit sphere. With zero
/// roughness only the exact mirror reflection remains.
pub open spec fn metal_direction_ok(m: Metal, r_in: Ray, normal: Vec3, dir: Vec3) -> bool {
    exists|e: Vec3|
        crate::vec3::v3_wf(e) && v3_len_sq(e).bits < FX_ONE && dir == v3_add(
            reflect_spec(v3_normalize(r_in.direction), normal),
            #[trigger] v3_scale(e, m.fuzzy),
        )
}

/// Schlick's polynomial approximation of the Fresnel reflectance.
pub open spec fn schlick_spec(cosine: Fx, ref_idx: Fx) -> Fx {
    let one = fx(FX_ONE as int);
    let r0 = fx_div(fx_sub(one, ref_idx), fx_add(one, ref_idx));
    let r0sq = fx_mul(r0, r0);
    let omc = fx_sub(one, cosine);
    let p5 = fx_mul(fx_mul(fx_mul(fx_mul(omc, omc), omc), omc), omc);
    fx_add(r0sq, fx_mul(fx_sub(one, r0sq), p5))
}

impl Lambertian {
    pub fn new_from_texture(texture: Texture) -> (r: Lambertian)
        ensures
            r == (Lambertian { albedo: texture }),
    {
        Lambertian { albedo: texture }
    }

    pub fn new_from_color(color: Color) -> (r: Lambertian)
        ensures
            r == (Lambertian { albedo: Texture::Solid(SolidColor { color }) }),
    {
        Lambertian { albedo: Texture::Solid(SolidColor::new_from_color(color)) }
    }
}

impl Metal {
    /// The roughness is clamped into the unit interval at
    /// construction.
    pub fn new(albedo: Color, fuzzy: Fx) -> (r: Metal)
        ensures
            r.albedo == albedo,
            r.fuzzy == fx_min(fx_max(fuzzy, fx(0)), fx(FX_ONE as int)),
            0 <= r.fuzzy.bits <= FX_ONE,
    {
        Metal { albedo, fuzzy: fuzzy.fmax(Fx { bits: 0 }).fmin(Fx { bits: FX_ONE }) }
    }
}

impl DiffuseLight {
    pub fn new(color: Color) -> (r: DiffuseLight)
        ensures
            r == (DiffuseLight { emit: Texture::Solid(SolidColor { color }) }),
    {
        DiffuseLight { emit: Texture::Solid(SolidColor::new_from_color(color)) }
    }
}

/// Mirror reflection of `v` about the normal `n`.
pub fn reflect(v: &Vec3, n: &Vec3) -> (r: Vec3)
    ensures
        r == reflect_spec(*v, *n),
{
    v.sub(n.scale(Fx::from_int(2).mul(v.dot(*n))))
}

/// The vector refraction of unit `uv` through the normal `n`.
pub fn refract(uv: Vec3, n: Vec3, etai_over_etat: Fx) -> (r: Vec3)
    ensures
        r == refract_spec(uv, n, etai_over_etat),
{
    let cos_theta = uv.neg().dot(n);
    let r_out_perp = uv.add(n.scale(cos_theta)).scale(etai_over_etat);
    let r_out_parallel = n.scale(
        Fx { bits: FX_ONE }.sub(r_out_perp.length_squared()).abs().sqrt(),
    ).neg();
    r_out_perp.add(r_out_parallel)
}

/// Schlick's approximation of the reflectance.
pub fn schlick(cosine: Fx, ref_idx: Fx) -> (r: Fx)
    ensures
        r == schlick_spec(cosine, ref_idx),
{
    let one = Fx { bits: FX_ONE };
    let r0 = one.sub(ref_idx).div(one.add(ref_idx));
    let r0sq = r0.mul(r0);
    let omc = one.sub(cosine);
    let p5 = omc.mul(omc).mul(omc).mul(omc).mul(omc);
    r0sq.add(one.sub(r0sq).mul(p5))
}

impl Material {
    /// A copy with the same contents, so emission and sampled
    /// attenuation agree everywhere; primitives that share one
    /// material each hold a copy made this way.
    pub fn duplicate(&self) -> (r: Material)
        ensures
            material_eq(r, *self),
            material_wf(*self) ==> material_wf(r),
            material_unit(*self) ==> material_unit(r),
    {
        match self {
            Material::Lambertian(l) => Material::Lambertian(
                Lambertian { albedo: l.albedo.duplicate() },
            ),
            Material::Metal(m) => Material::Metal(Metal { albedo: m.albedo, fuzzy: m.fuzzy }),
            Material::Dielectric(d) => Material::Dielectric(Dielectric { ref_idx: d.ref_idx }),
            Material::DiffuseLight(d) => Material::DiffuseLight(
                DiffuseLight { emit: d.emit.duplicate() },
            ),
        }
    }

    /// The emitted light at a surface coordinate: exactly
    /// `emitted_spec`.
    pub fn emitted(&self, u: Fx, v: Fx, p: &Point3) -> (r: Color)
        requires
            material_wf(*self),
        ensures
            r == emitted_spec(*self, u, v, *p),
    {
        match self {
            Material::DiffuseLight(d) => d.emit.value(u, v, p),
            _ => Color(Vec3::zero()),
        }
    }

    /// How the material scatters an incoming ray at an interaction.
    ///
    /// The scattered direction draws on the random samplers, so the
    /// contract states what holds of every outcome: the scattered ray
    /// starts at the hit point; the attenuation is the sampled albedo,
    /// within the unit range whenever the albedo is (so no bounce
    /// amplifies energy); a light emitter never scatters; a diffuse
    /// surface always does; a metal scatters exactly when the perturbed
    /// reflection leaves the surface's front; and a dielectric always
    /// scatters, by reflection, or by refraction when total internal
    /// reflection does not force the former.
    pub fn scatter(&self, r_in: &Ray, rec: &HitRecord) -> (res: Option<(Ray, Color)>)
        requires
            material_wf(*self),
        ensures
            res matches Some(sc) ==> sc.0.origin == rec.p,
            res matches Some(sc) ==> material_unit(*self) ==> color_in_unit(sc.1),
            self matches Material::Lambertian(l) ==> res matches Some(sc)
                && sc.1 == texture_value(l.albedo, rec.u, rec.v, rec.p)
                && sc.0.time == r_in.time,
            self matches Material::Metal(m) ==> (res matches Some(sc) ==> sc.1 == m.albedo
                && v3_dot(sc.0.direction, rec.normal).bits > 0 && sc.0.time.bits == 0
                && metal_direction_ok(*m, *r_in, rec.normal, sc.0.direction)),
            self matches Material::Metal(m) ==> (res matches Some(sc) ==> (m.fuzzy.bits == 0
                ==> sc.0.direction == reflect_spec(v3_normalize(r_in.direction), rec.normal))),
            self matches Material::Dielectric(d) ==> res matches Some(sc) && (sc.1 == (Color(
                v3(fx(FX_ONE as int), fx(FX_ONE as int), fx(FX_ONE as int)),
            )) && sc.0.time.bits == 0 && dielectric_direction_ok(
                *d,
                *r_in,
                rec.normal,
                rec.is_front_face,
                sc.0.direction,
            )),
            self matches Material::DiffuseLight(_) ==> res is None,
    {
        match self {
            Material::Lambertian(l) => {
                let scatter_direction = rec.normal.add(random_unit_vector());
                let scattered = Ray::new(rec.p, scatter_direction, r_in.time);
                let attenuation = l.albedo.value(rec.u, rec.v, &rec.p);
                Some((scattered, attenuation))
            },
            Material::Metal(m) => {
                let reflected = reflect(&r_in.direction.normalize(), &rec.normal);
                let e = random_in_unit_sphere();
                let scattered = Ray::new_without_move(rec.p, reflected.add(e.scale(m.fuzzy)));
                proof {
                    let u = v3_normalize(r_in.direction);
                    assert(scattered.direction == v3_add(
                        reflect_spec(u, rec.normal),
                        v3_scale(e, m.fuzzy),
                    ));
                    if m.fuzzy.bits == 0 {
                        crate::fixed::lemma_fx_mul_zero(e.x);
                        crate::fixed::lemma_fx_mul_zero(e.y);
                        crate::fixed::lemma_fx_mul_zero(e.z);
                        assert(v3_scale(e, m.fuzzy) == crate::vec3::v3_zero());
                        assert(crate::vec3::v3_wf(reflect_spec(u, rec.normal)));
                    }
                }
                if scattered.direction.dot(rec.normal).bits > 0 {
                    Some((scattered, m.albedo))
                } else {
                    None
                }
            },
            Material::Dielectric(d) => {
                let one = Fx { bits: FX_ONE };
                let attenuation = Color(Vec3::new(one, one, one));
                let etai_over_etat = if rec.is_front_face {
                    one.div(d.ref_idx)
                } else {
                    d.ref_idx
                };
                let unit_direction = r_in.direction.normalize();
                let cos_theta = unit_direction.neg().dot(rec.normal).fmin(one);
                let sin_theta = one.sub(cos_theta.mul(cos_theta)).sqrt();
                if etai_over_etat.mul(sin_theta).bits > FX_ONE {
                    let reflected = reflect(&unit_direction, &rec.normal);
                    Some((Ray::new_without_move(rec.p, reflected), attenuation))
                } else if random_fraction().bits < schlick(cos_theta, etai_over_etat).bits {
                    let reflected = reflect(&unit_direction, &rec.normal);
                    Some((Ray::new_without_move(rec.p, reflected), attenuation))
                } else {
                    let refracted = refract(unit_direction, rec.normal, etai_over_etat);
                    Some((Ray::new_without_move(rec.p, refracted), attenuation))
                }
            },
            Material::DiffuseLight(_) => None,
        }
    }
}

/// At normal incidence a refracted ray continues straight: for the
/// unit incoming direction along the negative vertical axis and the
/// opposing unit normal, the refraction formula returns the incoming
/// direction unchanged, whatever the ratio of refraction indices.
/// With the reference index of one and a half this is the glass
/// sphere's head-on behavior.
pub proof fn lemma_refract_normal_incidence(etai_over_etat: Fx)
    ensures
        refract_spec(
            v3(fx(0), fx(0), fx(-(FX_ONE as int))),
            v3(fx(0), fx(0), fx(FX_ONE as int)),
            etai_over_etat,
        ) == v3(fx(0), fx(0), fx(-(FX_ONE as int))),
{
    let one = fx(FX_ONE as int);
    let uv = v3(fx(0), fx(0), fx(-(FX_ONE as int)));
    let n = v3(fx(0), fx(0), one);
    crate::fixed::lemma_fx_mul_zero(fx(0));
    crate::fixed::lemma_fx_mul_zero(one);
    crate::fixed::lemma_fx_mul_zero(etai_over_etat);
    crate::fixed::lemma_fx_mul_one(one);
    assert(v3_neg(uv) == n);
    let cos_theta = v3_dot(v3_neg(uv), n);
    assert(cos_theta == one);
    assert(v3_scale(n, cos_theta) == n);
    assert(v3_add(uv, v3_scale(n, cos_theta)) == v3(fx(0), fx(0), fx(0)));
    let perp = v3_scale(v3_add(uv, v3_scale(n, cos_theta)), etai_over_etat);
    assert(perp == v3(fx(0), fx(0), fx(0)));
    assert(v3_len_sq(perp) == fx(0));
    assert(fx_abs(fx_sub(one, v3_len_sq(perp))) == one);
    assert((FX_ONE as int) * (FX_ONE as int) == 4294967296int) by (nonlinear_arith);
    assert(crate::fixed::is_isqrt(FX_ONE as int, 4294967296int)) by (nonlinear_arith);
    crate::fixed::lemma_isqrt_exact(FX_ONE as int, 4294967296int);
    assert(fx_sqrt(one) == one);
    assert(v3_scale(n, fx_sqrt(fx_abs(fx_sub(one, v3_len_sq(perp))))) == n);
    assert(v3_neg(n) == uv);
    assert(v3_add(perp, v3_neg(n)) == uv);
}

/// The directions a dielectric may scatter into: the mirror reflection
/// of the unit incoming direction, or, when total internal reflection
/// does not force reflection, its refraction.
pub open spec fn dielectric_direction_ok(
    d: Dielectric,
    r_in: Ray,
    normal: Vec3,
    is_front_face: bool,
    dir: Vec3,
) -> bool {
    let one = fx(FX_ONE as int);
    let etai_over_etat = if is_front_face {
        fx_div(one, d.ref_idx)
    } else {
        d.ref_idx
    };
    let unit_direction = v3_normalize(r_in.direction);
    let cos_theta = fx_min(v3_dot(v3_neg(unit_direction), normal), one);
    let sin_theta = fx_sqrt(fx_sub(one, fx_mul(cos_theta, cos_theta)));
    let tir = fx_mul(etai_over_etat, sin_theta).bits > FX_ONE;
    ||| dir == reflect_spec(unit_direction, normal)
    ||| (!tir && dir == refract_spec(unit_direction, normal, etai_over_etat))
}

} // verus!
