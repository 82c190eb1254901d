//! Gradient noise: three randomly permuted lattice tables and a table
//! of random gradient vectors, fixed at construction; afterwards the
//! noise is a pure function of the query point, and its contract says
//! exactly which value it returns.

use vstd::prelude::*;
use crate::fixed::{
    Fx, FX_ONE, fx, fx_add, fx_sub, fx_mul, fx_abs, fx_from_int, fx_floor, lemma_neg_mod,
};
use crate::vec3::{Vec3, Point3, v3, v3_dot, v3_scale, v3_normalize};
use crate::rng::{random_span, random_below};

verus! {

/// Entries of each permutation table and gradient table.
pub const POINT_COUNT: usize = 256;

pub struct Perlin {
    pub ran_vec: Vec<Vec3>,
    pub perm_x: Vec<u8>,
    pub perm_y: Vec<u8>,
    pub perm_z: Vec<u8>,
}

/// The entries of a permutation table are pairwise distinct: with 256
/// entries of 256 possible values, the table is a permutation.
pub open spec fn perm_distinct(t: Seq<u8>) -> bool {
    forall|a: int, b: int| 0 <= a < t.len() && 0 <= b < t.len() && a != b ==> t[a] != t[b]
}

/// Two noise fields with the same table contents: every lookup, and
/// hence the noise at every point, agrees.
pub open spec fn perlin_eq(a: Perlin, b: Perlin) -> bool {
    &&& a.ran_vec@ == b.ran_vec@
    &&& a.perm_x@ == b.perm_x@
    &&& a.perm_y@ == b.perm_y@
    &&& a.perm_z@ == b.perm_z@
}

/// A well-formed noise field: every table holds exactly 256 entries.
pub open spec fn perlin_wf(p: Perlin) -> bool {
    &&& p.ran_vec@.len() == 256
    &&& p.perm_x@.len() == 256
    &&& p.perm_y@.len() == 256
    &&& p.perm_z@.len() == 256
}

/// The gradient chosen for the lattice corner `(i + di, j + dj, k + dk)`:
/// the three permutation tables are read at the coordinate reduced mod
/// 256 and combined by exclusive or.
pub open spec fn corner_gradient(p: Perlin, i: int, j: int, k: int, di: int, dj: int, dk: int) -> Vec3 {
    let xi = p.perm_x@[(i + di) % 256];
    let yi = p.perm_y@[(j + dj) % 256];
    let zi = p.perm_z@[(k + dk) % 256];
    p.ran_vec@[(xi ^ yi ^ zi) as int]
}

/// One corner's contribution to the Perlin blend: the smoothstep
/// weights along each axis times the gradient dotted with the offset
/// from that corner.
pub open spec fn corner_term(
    grad: Vec3,
    u: Fx,
    v: Fx,
    w: Fx,
    uu: Fx,
    vv: Fx,
    ww: Fx,
    di: int,
    dj: int,
    dk: int,
) -> Fx {
    let one = fx(FX_ONE as int);
    let wi = if di == 1 { uu } else { fx_sub(one, uu) };
    let wj = if dj == 1 { vv } else { fx_sub(one, vv) };
    let wk = if dk == 1 { ww } else { fx_sub(one, ww) };
    let offset = v3(
        fx_sub(u, fx_from_int(di)),
        fx_sub(v, fx_from_int(dj)),
        fx_sub(w, fx_from_int(dk)),
    );
    fx_mul(fx_mul(fx_mul(wi, wj), wk), v3_dot(grad, offset))
}

/// The smoothstep weight `t * t * (3 - 2 t)`.
pub open spec fn smoothstep(t: Fx) -> Fx {
    fx_mul(fx_mul(t, t), fx_sub(fx_from_int(3), fx_mul(fx_from_int(2), t)))
}

/// The full noise value at a point: fractional offsets inside the
/// lattice cell, smoothstep weights, and the eight corner terms summed
/// in lattice order.
pub open spec fn noise_spec(p: Perlin, pt: Point3) -> Fx {
    let i = fx_floor(pt.x);
    let j = fx_floor(pt.y);
    let k = fx_floor(pt.z);
    let u = fx_sub(pt.x, fx_from_int(i));
    let v = fx_sub(pt.y, fx_from_int(j));
    let w = fx_sub(pt.z, fx_from_int(k));
    let uu = smoothstep(u);
    let vv = smoothstep(v);
    let ww = smoothstep(w);
    let t000 = corner_term(corner_gradient(p, i, j, k, 0, 0, 0), u, v, w, uu, vv, ww, 0, 0, 0);
    let t001 = corner_term(corner_gradient(p, i, j, k, 0, 0, 1), u, v, w, uu, vv, ww, 0, 0, 1);
    let t010 = corner_term(corner_gradient(p, i, j, k, 0, 1, 0), u, v, w, uu, vv, ww, 0, 1, 0);
    let t011 = corner_term(corner_gradient(p, i, j, k, 0, 1, 1), u, v, w, uu, vv, ww, 0, 1, 1);
    let t100 = corner_term(corner_gradient(p, i, j, k, 1, 0, 0), u, v, w, uu, vv, ww, 1, 0, 0);
    let t101 = corner_term(corner_gradient(p, i, j, k, 1, 0, 1), u, v, w, uu, vv, ww, 1, 0, 1);
    let t110 = corner_term(corner_gradient(p, i, j, k, 1, 1, 0), u, v, w, uu, vv, ww, 1, 1, 0);
    let t111 = corner_term(corner_gradient(p, i, j, k, 1, 1, 1), u, v, w, uu, vv, ww, 1, 1, 1);
    fx_add(
        fx_add(fx_add(fx_add(fx_add(fx_add(fx_add(t000, t001), t010), t011), t100), t101), t110),
        t111,
    )
}

/// The turbulence recursion: each octave adds the weighted noise and
/// halves the weight while doubling the frequency, accumulating in the
/// same order as the octave loop.
pub open spec fn turb_iter(p: Perlin, pt: Point3, weight: Fx, accum: Fx, depth: int) -> Fx
    decreases depth,
{
    if depth <= 0 {
        accum
    } else {
        turb_iter(
            p,
            v3_scale(pt, fx_from_int(2)),
            fx_mul(weight, fx(32768)),
            fx_add(accum, fx_mul(weight, noise_spec(p, pt))),
            depth - 1,
        )
    }
}

/// Multi-octave turbulence: the magnitude of the octave sum.
pub open spec fn turb_spec(p: Perlin, pt: Point3, depth: int) -> Fx {
    fx_abs(turb_iter(p, pt, fx(FX_ONE as int), fx(0), depth))
}

/// Noise fields with the same table contents agree at every point.
pub proof fn lemma_noise_eq(a: Perlin, b: Perlin, pt: Point3)
    requires
        perlin_eq(a, b),
    ensures
        noise_spec(a, pt) == noise_spec(b, pt),
{
}

/// Noise fields with the same table contents have the same turbulence
/// at every point and depth.
pub proof fn lemma_turb_eq(a: Perlin, b: Perlin, pt: Point3, weight: Fx, accum: Fx, depth: int)
    requires
        perlin_eq(a, b),
    ensures
        turb_iter(a, pt, weight, accum, depth) == turb_iter(b, pt, weight, accum, depth),
    decreases depth,
{
    if depth > 0 {
        lemma_noise_eq(a, b, pt);
        lemma_turb_eq(
            a,
            b,
            v3_scale(pt, fx_from_int(2)),
            fx_mul(weight, fx(32768)),
            fx_add(accum, fx_mul(weight, noise_spec(a, pt))),
            depth - 1,
        );
    }
}

/// A lattice coordinate reduced into `[0, 256)`, the index mask of the
/// permutation tables.
fn mask256(v: i64) -> (r: usize)
    ensures
        r as int == (v as int) % 256,
        r < 256,
{
    if v >= 0 {
        (v % 256) as usize
    } else {
        let m: u64 = ((-(v as i128)) as u128) as u64;
        let rem: u64 = m % 256;
        proof {
            lemma_neg_mod(m as int, 256);
        }
        if rem == 0 {
            0
        } else {
            (256 - rem) as usize
        }
    }
}

impl Perlin {
    /// Shuffle the table in place: walking down from the top, each
    /// entry is swapped with one drawn strictly below it. Entries stay
    /// pairwise distinct.
    pub fn permute(p: &mut Vec<u8>)
        requires
            old(p)@.len() == 256,
            forall|a: int, b: int|
                0 <= a < 256 && 0 <= b < 256 && a != b ==> old(p)@[a] != old(p)@[b],
        ensures
            final(p)@.len() == 256,
            forall|a: int, b: int|
                0 <= a < 256 && 0 <= b < 256 && a != b ==> final(p)@[a] != final(p)@[b],
    {
        let mut i: usize = POINT_COUNT - 1;
        while i > 0
            invariant
                i < 256,
                p@.len() == 256,
                forall|a: int, b: int|
                    0 <= a < 256 && 0 <= b < 256 && a != b ==> p@[a] != p@[b],
            decreases i,
        {
            let target = random_below(i);
            let vi = p[i];
            let vt = p[target];
            p.set(i, vt);
            p.set(target, vi);
            i = i - 1;
        }
    }

    /// A fresh permutation table: the identity on `[0, 256)`, shuffled.
    /// The entries are pairwise distinct, so the table is a permutation.
    pub fn perlin_generate_perm() -> (p: Vec<u8>)
        ensures
            p@.len() == 256,
            forall|a: int, b: int| 0 <= a < 256 && 0 <= b < 256 && a != b ==> p@[a] != p@[b],
    {
        let mut p: Vec<u8> = Vec::new();
        let mut j: usize = 0;
        while j < POINT_COUNT
            invariant
                j <= 256,
                p@.len() == j,
                forall|k: int| 0 <= k < j ==> p@[k] == k,
            decreases 256 - j,
        {
            p.push(j as u8);
            j = j + 1;
        }
        Self::permute(&mut p);
        p
    }

    /// A fresh noise field: 256 random gradient vectors, normalized,
    /// and three independently shuffled permutation tables.
    pub fn new() -> (p: Perlin)
        ensures
            perlin_wf(p),
            perm_distinct(p.perm_x@),
            perm_distinct(p.perm_y@),
            perm_distinct(p.perm_z@),
    {
        let mut ran_vec: Vec<Vec3> = Vec::new();
        let mut n: usize = 0;
        while n < POINT_COUNT
            invariant
                n <= 256,
                ran_vec@.len() == n,
            decreases 256 - n,
        {
            let v = Vec3::new(random_span(), random_span(), random_span());
            ran_vec.push(v.normalize());
            n = n + 1;
        }
        Perlin {
            ran_vec,
            perm_x: Self::perlin_generate_perm(),
            perm_y: Self::perlin_generate_perm(),
            perm_z: Self::perlin_generate_perm(),
        }
    }

    /// The noise value at a point: exactly `noise_spec`, a pure
    /// function of the tables and the point, so two evaluations of the
    /// same field at the same point are identical.
    pub fn noise(&self, pt: &Point3) -> (r: Fx)
        requires
            perlin_wf(*self),
        ensures
            r == noise_spec(*self, *pt),
    {
        let i = pt.x.floor();
        let j = pt.y.floor();
        let k = pt.z.floor();
        let u = pt.x.sub(Fx::from_int(i));
        let v = pt.y.sub(Fx::from_int(j));
        let w = pt.z.sub(Fx::from_int(k));
        let uu = smooth(u);
        let vv = smooth(v);
        let ww = smooth(w);
        let mut accum = self.term(i, j, k, 0, 0, 0, u, v, w, uu, vv, ww);
        accum = accum.add(self.term(i, j, k, 0, 0, 1, u, v, w, uu, vv, ww));
        accum = accum.add(self.term(i, j, k, 0, 1, 0, u, v, w, uu, vv, ww));
        accum = accum.add(self.term(i, j, k, 0, 1, 1, u, v, w, uu, vv, ww));
        accum = accum.add(self.term(i, j, k, 1, 0, 0, u, v, w, uu, vv, ww));
        accum = accum.add(self.term(i, j, k, 1, 0, 1, u, v, w, uu, vv, ww));
        accum = accum.add(self.term(i, j, k, 1, 1, 0, u, v, w, uu, vv, ww));
        accum = accum.add(self.term(i, j, k, 1, 1, 1, u, v, w, uu, vv, ww));
        accum
    }

    /// One corner's contribution at lattice cell `(i, j, k)`.
    fn term(
        &self,
        i: i64,
        j: i64,
        k: i64,
        di: i64,
        dj: i64,
        dk: i64,
        u: Fx,
        v: Fx,
        w: Fx,
        uu: Fx,
        vv: Fx,
        ww: Fx,
    ) -> (r: Fx)
        requires
            perlin_wf(*self),
            0 <= di <= 1,
            0 <= dj <= 1,
            0 <= dk <= 1,
            i + di <= i64::MAX,
            j + dj <= i64::MAX,
            k + dk <= i64::MAX,
        ensures
            r == corner_term(
                corner_gradient(*self, i as int, j as int, k as int, di as int, dj as int, dk as int),
                u,
                v,
                w,
                uu,
                vv,
                ww,
                di as int,
                dj as int,
                dk as int,
            ),
    {
        let xi = self.perm_x[mask256(i + di)];
        let yi = self.perm_y[mask256(j + dj)];
        let zi = self.perm_z[mask256(k + dk)];
        let grad = self.ran_vec[(xi ^ yi ^ zi) as usize];
        let one = Fx { bits: FX_ONE };
        let wi = if di == 1 { uu } else { one.sub(uu) };
        let wj = if dj == 1 { vv } else { one.sub(vv) };
        let wk = if dk == 1 { ww } else { one.sub(ww) };
        let offset = Vec3::new(
            u.sub(Fx::from_int(di)),
            v.sub(Fx::from_int(dj)),
            w.sub(Fx::from_int(dk)),
        );
        wi.mul(wj).mul(wk).mul(grad.dot(offset))
    }

    /// An exact copy of the noise field: every table holds the
    /// original's contents, so the copy's noise is the original's at
    /// every point.
    pub fn duplicate(&self) -> (r: Perlin)
        ensures
            perlin_eq(r, *self),
    {
        Perlin {
            ran_vec: clone_gradients(&self.ran_vec),
            perm_x: clone_table(&self.perm_x),
            perm_y: clone_table(&self.perm_y),
            perm_z: clone_table(&self.perm_z),
        }
    }

    /// Multi-octave turbulence: exactly `turb_spec`.
    #[verifier::rlimit(60)]
    pub fn turb(&self, pt: &Point3, depth: usize) -> (r: Fx)
        requires
            perlin_wf(*self),
        ensures
            r == turb_spec(*self, *pt, depth as int),
    {
        let mut accum = Fx { bits: 0 };
        let mut temp_p = *pt;
        let mut weight = Fx { bits: FX_ONE };
        let mut n: usize = 0;
        while n < depth
            invariant
                perlin_wf(*self),
                n <= depth,
                turb_iter(*self, temp_p, weight, accum, depth - n)
                    == turb_iter(*self, *pt, fx(FX_ONE as int), fx(0), depth as int),
            decreases depth - n,
        {
            accum = accum.add(weight.mul(self.noise(&temp_p)));
            weight = weight.mul(Fx { bits: 32768 });
            temp_p = temp_p.scale(Fx::from_int(2));
            n = n + 1;
        }
        accum.abs()
    }
}

/// An element-for-element copy of a gradient table.
fn clone_gradients(v: &Vec<Vec3>) -> (r: Vec<Vec3>)
    ensures
        r@ == v@,
{
    let mut r: Vec<Vec3> = Vec::new();
    let mut i: usize = 0;
    while i < v.len()
        invariant
            i <= v@.len(),
            r@ == v@.subrange(0, i as int),
        decreases v@.len() - i,
    {
        r.push(v[i]);
        proof {
            assert(r@ =~= v@.subrange(0, i + 1));
        }
        i = i + 1;
    }
    proof {
        assert(r@ =~= v@);
    }
    r
}

/// An element-for-element copy of a permutation table.
fn clone_table(v: &Vec<u8>) -> (r: Vec<u8>)
    ensures
        r@ == v@,
{
    let mut r: Vec<u8> = Vec::new();
    let mut i: usize = 0;
    while i < v.len()
        invariant
            i <= v@.len(),
            r@ == v@.subrange(0, i as int),
        decreases v@.len() - i,
    {
        r.push(v[i]);
        proof {
            assert(r@ =~= v@.subrange(0, i + 1));
        }
        i = i + 1;
    }
    proof {
        assert(r@ =~= v@);
    }
    r
}

/// The smoothstep weight `t * t * (3 - 2 t)`.
fn smooth(t: Fx) -> (r: Fx)
    ensures
        r == smoothstep(t),
{
    t.mul(t).mul(Fx::from_int(3).sub(Fx::from_int(2).mul(t)))
}

} // verus!
