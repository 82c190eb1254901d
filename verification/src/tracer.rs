//! The radiance integrator: the recursive estimate of the light
//! arriving along a ray, terminated by a depth bound, by a miss
//! (background radiance) or by an absorbing surface.

use vstd::prelude::*;
use crate::fixed::{Fx, FX_MAX, fx, fx_mul, fx_add};
use crate::vec3::{Vec3, v3, v3_zero, v3_add, v3_mul};
use crate::ray::Ray;
use crate::color::Color;
use crate::material::{Material, emitted_spec};
use crate::hittable::{list_hit_from, seq_mat_wf};
use crate::hittable_list::HittableList;

verus! {

/// The lower intersection bound of every radiance query, a little
/// above zero to guard against self-intersection at the ray's origin.
pub const SHADOW_EPS: i64 = 66;

/// The recursion measure: non-positive depths count as exhausted.
pub open spec fn depth_measure(d: int) -> int {
    if d <= 0 {
        0
    } else {
        d
    }
}

/// Multiplying by the zero scalar gives zero.
proof fn lemma_fx_mul_zero(x: Fx)
    ensures
        fx_mul(x, fx(0)) == fx(0),
{
    vstd::arithmetic::div_mod::lemma_div_of0(crate::fixed::FX_ONE as int);
    assert(crate::fixed::mag(x.bits as int) * crate::fixed::mag(0int) == 0) by (nonlinear_arith)
        requires
            crate::fixed::mag(0int) == 0,
    ;
}

/// Attenuating black gives black, and adding black to black gives
/// black: one diffuse bounce at the last recursion level is black.
proof fn lemma_attenuate_black(att: Vec3)
    ensures
        v3_add(v3_zero(), v3_mul(att, v3_zero())) == v3_zero(),
{
    lemma_fx_mul_zero(att.x);
    lemma_fx_mul_zero(att.y);
    lemma_fx_mul_zero(att.z);
    vstd::arithmetic::div_mod::lemma_div_of0(crate::fixed::FX_ONE as int);
}

/// The estimated radiance along a ray through a scene.
///
/// An exhausted depth yields black; a miss yields the background; a
/// hit yields the material's emission plus the attenuated radiance of
/// the scattered ray, or the emission alone when the material absorbs
/// the path. The randomness of scattering leaves the bounced branch
/// unpinned, but every deterministic branch is stated: an emitter ends
/// the path at its emission, and a diffuse hit at the last level is
/// black, since the bounce below it is.
pub fn ray_color(r: &Ray, background: Color, w: &HittableList, depth: i32) -> (res: Color)
    requires
        seq_mat_wf(w.objects@),
    ensures
        depth <= 0 ==> res == Color(v3_zero()),
        ({
            let hres = list_hit_from(
                w.objects@,
                *r,
                Fx { bits: SHADOW_EPS },
                Fx { bits: FX_MAX },
                None,
                0,
            );
            &&& (depth > 0 && hres is None) ==> res == background
            &&& depth > 0 ==> (hres matches Some(h) ==> (h.material is DiffuseLight ==> res
                == emitted_spec(h.material, h.u, h.v, h.p)))
            &&& depth == 1 ==> (hres matches Some(h) ==> (h.material is Lambertian ==> res
                == Color(v3_zero())))
        }),
    decreases depth_measure(depth as int),
{
    if depth <= 0 {
        return Color(Vec3::zero());
    }

    match w.hit(r, Fx { bits: SHADOW_EPS }, Fx { bits: FX_MAX }) {
        Some(rec) => {
            let emitted = rec.material.emitted(rec.u, rec.v, &rec.p);
            match rec.material.scatter(r, &rec) {
                Some((scattered, attenuation)) => {
                    let bounced = ray_color(&scattered, background, w, depth - 1);
                    proof {
                        lemma_attenuate_black(attenuation.0);
                    }
                    Color(emitted.0.add(attenuation.0.mul(bounced.0)))
                },
                None => emitted,
            }
        },
        None => background,
    }
}

} // verus!
