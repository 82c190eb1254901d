//! Three-component vectors over the fixed-point scalar, used
//! interchangeably as points, directions and colors.

use vstd::prelude::*;
use crate::fixed::{Fx, fx_add, fx_sub, fx_mul, fx_div, fx_neg, fx_sqrt, fx, fx_wf, FX_MAX};
use crate::display::{fx_dec_seq, fx_dec};

verus! {

#[derive(Clone, Copy, Debug, PartialEq, Eq, Structural)]
pub struct Vec3 {
    pub x: Fx,
    pub y: Fx,
    pub z: Fx,
}

/// A vector read as a position.
pub type Point3 = Vec3;

pub open spec fn v3(x: Fx, y: Fx, z: Fx) -> Vec3 {
    Vec3 { x: x, y: y, z: z }
}

pub open spec fn v3_add(a: Vec3, b: Vec3) -> Vec3 {
    v3(fx_add(a.x, b.x), fx_add(a.y, b.y), fx_add(a.z, b.z))
}

pub open spec fn v3_sub(a: Vec3, b: Vec3) -> Vec3 {
    v3(fx_sub(a.x, b.x), fx_sub(a.y, b.y), fx_sub(a.z, b.z))
}

/// Componentwise product.
pub open spec fn v3_mul(a: Vec3, b: Vec3) -> Vec3 {
    v3(fx_mul(a.x, b.x), fx_mul(a.y, b.y), fx_mul(a.z, b.z))
}

pub open spec fn v3_scale(a: Vec3, t: Fx) -> Vec3 {
    v3(fx_mul(a.x, t), fx_mul(a.y, t), fx_mul(a.z, t))
}

pub open spec fn v3_div_scalar(a: Vec3, t: Fx) -> Vec3 {
    v3(fx_div(a.x, t), fx_div(a.y, t), fx_div(a.z, t))
}

pub open spec fn v3_neg(a: Vec3) -> Vec3 {
    v3(fx_neg(a.x), fx_neg(a.y), fx_neg(a.z))
}

pub open spec fn v3_dot(a: Vec3, b: Vec3) -> Fx {
    fx_add(fx_add(fx_mul(a.x, b.x), fx_mul(a.y, b.y)), fx_mul(a.z, b.z))
}

pub open spec fn v3_cross(a: Vec3, b: Vec3) -> Vec3 {
    v3(
        fx_sub(fx_mul(a.y, b.z), fx_mul(a.z, b.y)),
        fx_sub(fx_mul(a.z, b.x), fx_mul(a.x, b.z)),
        fx_sub(fx_mul(a.x, b.y), fx_mul(a.y, b.x)),
    )
}

pub open spec fn v3_len_sq(a: Vec3) -> Fx {
    v3_dot(a, a)
}

pub open spec fn v3_length(a: Vec3) -> Fx {
    fx_sqrt(v3_len_sq(a))
}

/// Normalization divides by the length; a zero-length vector follows
/// the saturating-division convention and maps to the zero vector, the
/// library's counterpart of the silently tolerated degenerate cases.
pub open spec fn v3_normalize(a: Vec3) -> Vec3 {
    v3_div_scalar(a, v3_length(a))
}

pub open spec fn v3_zero() -> Vec3 {
    v3(fx(0), fx(0), fx(0))
}

/// Component along axis `i`: x, then y, then z.
pub open spec fn v3_axis(a: Vec3, i: int) -> Fx {
    if i == 0 {
        a.x
    } else if i == 1 {
        a.y
    } else {
        a.z
    }
}

/// Every component is in the symmetric representable range, as every
/// vector built by this module's operations is.
pub open spec fn v3_wf(a: Vec3) -> bool {
    fx_wf(a.x) && fx_wf(a.y) && fx_wf(a.z)
}

/// Negating one factor negates a product exactly, the factor being in
/// the symmetric range.
pub proof fn lemma_fx_mul_neg(a: Fx, b: Fx)
    requires
        fx_wf(b),
    ensures
        fx_mul(a, fx_neg(b)) == fx_neg(fx_mul(a, b)),
{
    let nb = fx_neg(b);
    assert(nb.bits as int == -(b.bits as int));
    assert(crate::fixed::mag(nb.bits as int) == crate::fixed::mag(b.bits as int));
    let m = crate::fixed::mag(a.bits as int) * crate::fixed::mag(b.bits as int);
    assert(m >= 0) by (nonlinear_arith)
        requires
            m == crate::fixed::mag(a.bits as int) * crate::fixed::mag(b.bits as int),
            crate::fixed::mag(a.bits as int) >= 0,
            crate::fixed::mag(b.bits as int) >= 0,
    ;
    vstd::arithmetic::div_mod::lemma_div_pos_is_pos(m, crate::fixed::FX_ONE as int);
    let q = m / (crate::fixed::FX_ONE as int);
    assert(crate::fixed::sat(-q) == -crate::fixed::sat(q));
    if b.bits == 0 {
        assert(m == 0) by (nonlinear_arith)
            requires
                m == crate::fixed::mag(a.bits as int) * crate::fixed::mag(b.bits as int),
                crate::fixed::mag(b.bits as int) == 0,
        ;
        vstd::arithmetic::div_mod::lemma_div_of0(crate::fixed::FX_ONE as int);
        assert(fx_mul(a, nb) == fx_neg(fx_mul(a, b)));
    } else {
        assert((nb.bits < 0) == !(b.bits < 0));
        assert(fx_mul(a, nb) == fx_neg(fx_mul(a, b)));
    }
}

/// Negating both summands negates a saturating sum exactly.
pub proof fn lemma_fx_add_neg(p: Fx, q: Fx)
    requires
        fx_wf(p),
        fx_wf(q),
    ensures
        fx_add(fx_neg(p), fx_neg(q)) == fx_neg(fx_add(p, q)),
{
}

/// The dot product against a negated vector is the negated dot
/// product, when the vector is in the symmetric range.
pub proof fn lemma_v3_dot_neg(a: Vec3, b: Vec3)
    requires
        v3_wf(b),
    ensures
        v3_dot(a, v3_neg(b)) == fx_neg(v3_dot(a, b)),
{
    lemma_fx_mul_neg(a.x, b.x);
    lemma_fx_mul_neg(a.y, b.y);
    lemma_fx_mul_neg(a.z, b.z);
    lemma_fx_add_neg(fx_mul(a.x, b.x), fx_mul(a.y, b.y));
    lemma_fx_add_neg(fx_add(fx_mul(a.x, b.x), fx_mul(a.y, b.y)), fx_mul(a.z, b.z));
}

/// A square is never negative.
pub proof fn lemma_fx_square_nonneg(x: Fx)
    ensures
        fx_mul(x, x).bits >= 0,
{
    let m = crate::fixed::mag(x.bits as int) * crate::fixed::mag(x.bits as int);
    assert(m >= 0) by (nonlinear_arith)
        requires
            m == crate::fixed::mag(x.bits as int) * crate::fixed::mag(x.bits as int),
            crate::fixed::mag(x.bits as int) >= 0,
    ;
    vstd::arithmetic::div_mod::lemma_div_pos_is_pos(m, crate::fixed::FX_ONE as int);
}

/// A squared length is never negative.
pub proof fn lemma_v3_len_sq_nonneg(v: Vec3)
    ensures
        v3_len_sq(v).bits >= 0,
{
    lemma_fx_square_nonneg(v.x);
    lemma_fx_square_nonneg(v.y);
    lemma_fx_square_nonneg(v.z);
}

/// The display rendering: the three components separated by spaces.
pub open spec fn v3_dec_seq(a: Vec3) -> Seq<char> {
    fx_dec_seq(a.x) + seq![' '] + fx_dec_seq(a.y) + seq![' '] + fx_dec_seq(a.z)
}

impl Vec3 {
    pub fn new(x: Fx, y: Fx, z: Fx) -> (r: Vec3)
        ensures
            r == v3(x, y, z),
    {
        Vec3 { x: x, y: y, z: z }
    }

    pub fn zero() -> (r: Vec3)
        ensures
            r == v3_zero(),
    {
        Vec3 { x: Fx { bits: 0 }, y: Fx { bits: 0 }, z: Fx { bits: 0 } }
    }

    pub fn add(self, other: Vec3) -> (r: Vec3)
        ensures
            r == v3_add(self, other),
    {
        Vec3 { x: self.x.add(other.x), y: self.y.add(other.y), z: self.z.add(other.z) }
    }

    pub fn add_assign(&mut self, other: Vec3)
        ensures
            *final(self) == v3_add(*old(self), other),
    {
        *self = self.add(other);
    }

    pub fn sub(self, other: Vec3) -> (r: Vec3)
        ensures
            r == v3_sub(self, other),
    {
        Vec3 { x: self.x.sub(other.x), y: self.y.sub(other.y), z: self.z.sub(other.z) }
    }

    /// Componentwise product.
    pub fn mul(self, other: Vec3) -> (r: Vec3)
        ensures
            r == v3_mul(self, other),
    {
        Vec3 { x: self.x.mul(other.x), y: self.y.mul(other.y), z: self.z.mul(other.z) }
    }

    pub fn scale(self, t: Fx) -> (r: Vec3)
        ensures
            r == v3_scale(self, t),
    {
        Vec3 { x: self.x.mul(t), y: self.y.mul(t), z: self.z.mul(t) }
    }

    pub fn mul_assign(&mut self, t: Fx)
        ensures
            *final(self) == v3_scale(*old(self), t),
    {
        *self = self.scale(t);
    }

    pub fn div_scalar(self, t: Fx) -> (r: Vec3)
        ensures
            r == v3_div_scalar(self, t),
    {
        Vec3 { x: self.x.div(t), y: self.y.div(t), z: self.z.div(t) }
    }

    pub fn div_assign(&mut self, t: Fx)
        ensures
            *final(self) == v3_div_scalar(*old(self), t),
    {
        *self = self.div_scalar(t);
    }

    pub fn neg(self) -> (r: Vec3)
        ensures
            r == v3_neg(self),
    {
        Vec3 { x: self.x.neg(), y: self.y.neg(), z: self.z.neg() }
    }

    pub fn dot(&self, other: Vec3) -> (r: Fx)
        ensures
            r == v3_dot(*self, other),
    {
        self.x.mul(other.x).add(self.y.mul(other.y)).add(self.z.mul(other.z))
    }

    pub fn cross(&self, other: Vec3) -> (r: Vec3)
        ensures
            r == v3_cross(*self, other),
    {
        Vec3 {
            x: self.y.mul(other.z).sub(self.z.mul(other.y)),
            y: self.z.mul(other.x).sub(self.x.mul(other.z)),
            z: self.x.mul(other.y).sub(self.y.mul(other.x)),
        }
    }

    pub fn length_squared(&self) -> (r: Fx)
        ensures
            r == v3_len_sq(*self),
    {
        self.dot(*self)
    }

    pub fn length(&self) -> (r: Fx)
        ensures
            r == v3_length(*self),
    {
        self.length_squared().sqrt()
    }

    pub fn normalize(&self) -> (r: Vec3)
        ensures
            r == v3_normalize(*self),
    {
        self.div_scalar(self.length())
    }

    /// Component along axis `i`: x, then y, then z.
    pub fn axis(&self, i: usize) -> (r: Fx)
        requires
            i < 3,
        ensures
            r == v3_axis(*self, i as int),
    {
        if i == 0 {
            self.x
        } else if i == 1 {
            self.y
        } else {
            self.z
        }
    }

    /// The display rendering: the three components separated by spaces.
    pub fn display_string(&self) -> (s: String)
        ensures
            s@ == v3_dec_seq(*self),
    {
        let mut s = fx_dec(self.x);
        s.append(" ");
        proof {
            reveal_strlit(" ");
        }
        s.append(fx_dec(self.y).as_str());
        s.append(" ");
        s.append(fx_dec(self.z).as_str());
        proof {
            assert(s@ =~= v3_dec_seq(*self));
        }
        s
    }
}

} // verus!
