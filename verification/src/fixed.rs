//! The scalar type of the tracer: signed fixed-point numbers with 16
//! fractional bits, stored in an `i64` and saturating at a symmetric
//! bound so that negation is always exact.
//!
//! Every operation is total and carries an exact contract: the spec
//! functions below are the mathematical model, and each executable
//! operation returns precisely its model's value.

use vstd::prelude::*;

verus! {

/// One, in fixed-point bits: values carry 16 fractional bits.
pub const FX_ONE: i64 = 65536;

/// Largest bit magnitude a scalar may hold. The range is symmetric
/// (`i64::MIN` is never produced), so negation never overflows.
pub const FX_MAX: i64 = 0x7fff_ffff_ffff_ffff;

/// A real number in 16-bit fixed point. `bits` is the value scaled by
/// `FX_ONE`; arithmetic that would leave the representable range
/// saturates, standing in for IEEE infinities.
#[derive(Clone, Copy, Debug, PartialEq, Eq, Structural)]
pub struct Fx {
    pub bits: i64,
}

/// Clamp an unbounded integer into the symmetric representable range.
pub open spec fn sat(x: int) -> int {
    if x > FX_MAX as int {
        FX_MAX as int
    } else if x < -(FX_MAX as int) {
        -(FX_MAX as int)
    } else {
        x
    }
}

/// Magnitude of an integer.
pub open spec fn mag(x: int) -> int {
    if x < 0 {
        -x
    } else {
        x
    }
}

/// Build a scalar from in-range bits.
pub open spec fn fx(b: int) -> Fx {
    Fx { bits: b as i64 }
}

/// Every scalar an operation of this module returns satisfies this.
pub open spec fn fx_wf(a: Fx) -> bool {
    -(FX_MAX as int) <= a.bits as int
}

pub open spec fn fx_from_bits(b: int) -> Fx {
    fx(sat(b))
}

pub open spec fn fx_from_int(i: int) -> Fx {
    fx(sat(i * FX_ONE as int))
}

pub open spec fn fx_add(a: Fx, b: Fx) -> Fx {
    fx(sat(a.bits as int + b.bits as int))
}

pub open spec fn fx_sub(a: Fx, b: Fx) -> Fx {
    fx(sat(a.bits as int - b.bits as int))
}

pub open spec fn fx_neg(a: Fx) -> Fx {
    fx(sat(-(a.bits as int)))
}

/// Product, rounded toward zero: the magnitudes are multiplied, scaled
/// back down with a flooring division, and the sign is reapplied.
pub open spec fn fx_mul(a: Fx, b: Fx) -> Fx {
    let m = (mag(a.bits as int) * mag(b.bits as int)) / (FX_ONE as int);
    if (a.bits < 0) == (b.bits < 0) {
        fx(sat(m))
    } else {
        fx(sat(-m))
    }
}

/// Quotient, rounded toward zero. A zero divisor saturates by the sign
/// of the dividend, standing in for the IEEE infinities the slab test
/// relies on; `0 / 0` is zero.
pub open spec fn fx_div(a: Fx, b: Fx) -> Fx {
    if b.bits == 0 {
        if a.bits > 0 {
            fx(FX_MAX as int)
        } else if a.bits < 0 {
            fx(-(FX_MAX as int))
        } else {
            fx(0)
        }
    } else {
        let m = (mag(a.bits as int) * FX_ONE as int) / mag(b.bits as int);
        if (a.bits < 0) == (b.bits < 0) {
            fx(sat(m))
        } else {
            fx(sat(-m))
        }
    }
}

pub open spec fn fx_min(a: Fx, b: Fx) -> Fx {
    if a.bits <= b.bits {
        a
    } else {
        b
    }
}

pub open spec fn fx_max(a: Fx, b: Fx) -> Fx {
    if a.bits >= b.bits {
        a
    } else {
        b
    }
}

pub open spec fn fx_abs(a: Fx) -> Fx {
    if a.bits < 0 {
        fx_neg(a)
    } else {
        a
    }
}

/// `r` is the integer square root of `n`.
pub open spec fn is_isqrt(r: int, n: int) -> bool {
    0 <= r && r * r <= n && n < (r + 1) * (r + 1)
}

pub open spec fn isqrt(n: int) -> int {
    choose|r: int| is_isqrt(r, n)
}

/// Square root; non-positive inputs give zero, as the tracer only ever
/// takes roots of squared quantities.
pub open spec fn fx_sqrt(a: Fx) -> Fx {
    if a.bits <= 0 {
        fx(0)
    } else {
        fx(isqrt(a.bits as int * FX_ONE as int))
    }
}

/// Floor of the value, as an integer (flooring division by the scale).
pub open spec fn fx_floor(a: Fx) -> int {
    (a.bits as int) / (FX_ONE as int)
}

/// The value truncated toward zero, as an integer.
pub open spec fn fx_trunc(a: Fx) -> int {
    if a.bits < 0 {
        -(mag(a.bits as int) / (FX_ONE as int))
    } else {
        mag(a.bits as int) / (FX_ONE as int)
    }
}

proof fn lemma_isqrt_unique(r1: int, r2: int, n: int)
    requires
        is_isqrt(r1, n),
        is_isqrt(r2, n),
    ensures
        r1 == r2,
{
    if r1 < r2 {
        assert((r1 + 1) * (r1 + 1) <= r2 * r2) by (nonlinear_arith)
            requires 0 <= r1 + 1 <= r2;
    }
    if r2 < r1 {
        assert((r2 + 1) * (r2 + 1) <= r1 * r1) by (nonlinear_arith)
            requires 0 <= r2 + 1 <= r1;
    }
}

/// Clamp a wide intermediate into the scalar range.
fn clamp_wide(s: i128) -> (r: i64)
    ensures
        r as int == sat(s as int),
{
    if s > FX_MAX as i128 {
        FX_MAX
    } else if s < -(FX_MAX as i128) {
        -FX_MAX
    } else {
        s as i64
    }
}

/// Magnitude of the bits, as an unsigned wide integer.
fn wide_mag(a: Fx) -> (r: u128)
    ensures
        r as int == mag(a.bits as int),
{
    let w: i128 = a.bits as i128;
    if w < 0 {
        (-w) as u128
    } else {
        w as u128
    }
}

impl Fx {
    /// The scalar zero.
    pub fn zero() -> (r: Fx)
        ensures
            r == (Fx { bits: 0i64 }),
    {
        Fx { bits: 0 }
    }

    /// Build a scalar directly from fixed-point bits, saturating.
    pub fn from_bits(b: i64) -> (r: Fx)
        ensures
            r == fx_from_bits(b as int),
    {
        if b < -FX_MAX {
            Fx { bits: -FX_MAX }
        } else {
            Fx { bits: b }
        }
    }

    /// Build a scalar from an integer, saturating.
    pub fn from_int(i: i64) -> (r: Fx)
        ensures
            r == fx_from_int(i as int),
    {
        proof {
            assert((i as int) * (FX_ONE as int) <= 0x8000_0000_0000_0000 * 0x10000
                && (i as int) * (FX_ONE as int) >= -0x8000_0000_0000_0000 * 0x10000)
                by (nonlinear_arith)
                requires -0x8000_0000_0000_0000 <= i as int <= 0x8000_0000_0000_0000;
        }
        let w: i128 = (i as i128) * (FX_ONE as i128);
        Fx { bits: clamp_wide(w) }
    }

    pub fn add(self, other: Fx) -> (r: Fx)
        ensures
            r == fx_add(self, other),
    {
        let s: i128 = self.bits as i128 + other.bits as i128;
        Fx { bits: clamp_wide(s) }
    }

    pub fn sub(self, other: Fx) -> (r: Fx)
        ensures
            r == fx_sub(self, other),
    {
        let s: i128 = self.bits as i128 - other.bits as i128;
        Fx { bits: clamp_wide(s) }
    }

    pub fn neg(self) -> (r: Fx)
        ensures
            r == fx_neg(self),
    {
        let s: i128 = -(self.bits as i128);
        Fx { bits: clamp_wide(s) }
    }

    pub fn mul(self, other: Fx) -> (r: Fx)
        ensures
            r == fx_mul(self, other),
    {
        let negative: bool = (self.bits < 0) != (other.bits < 0);
        let ma: u128 = wide_mag(self);
        let mb: u128 = wide_mag(other);
        proof {
            assert(ma * mb <= 0x8000_0000_0000_0000u128 * 0x8000_0000_0000_0000u128)
                by (nonlinear_arith)
                requires ma <= 0x8000_0000_0000_0000u128, mb <= 0x8000_0000_0000_0000u128;
        }
        let m: u128 = (ma * mb) / (FX_ONE as u128);
        let c: i64 = if m > FX_MAX as u128 {
            FX_MAX
        } else {
            m as i64
        };
        if negative {
            Fx { bits: -c }
        } else {
            Fx { bits: c }
        }
    }

    pub fn div(self, other: Fx) -> (r: Fx)
        ensures
            r == fx_div(self, other),
    {
        if other.bits == 0 {
            if self.bits > 0 {
                Fx { bits: FX_MAX }
            } else if self.bits < 0 {
                Fx { bits: -FX_MAX }
            } else {
                Fx { bits: 0 }
            }
        } else {
            let negative: bool = (self.bits < 0) != (other.bits < 0);
            let ma: u128 = wide_mag(self);
            let mb: u128 = wide_mag(other);
            proof {
                assert((ma as int) * (FX_ONE as int) <= 0x8000_0000_0000_0000 * 0x10000)
                    by (nonlinear_arith)
                    requires 0 <= ma as int <= 0x8000_0000_0000_0000;
            }
            let m: u128 = (ma * (FX_ONE as u128)) / mb;
            let c: i64 = if m > FX_MAX as u128 {
                FX_MAX
            } else {
                m as i64
            };
            if negative {
                Fx { bits: -c }
            } else {
                Fx { bits: c }
            }
        }
    }

    pub fn fmin(self, other: Fx) -> (r: Fx)
        ensures
            r == fx_min(self, other),
    {
        if self.bits <= other.bits {
            self
        } else {
            other
        }
    }

    pub fn fmax(self, other: Fx) -> (r: Fx)
        ensures
            r == fx_max(self, other),
    {
        if self.bits >= other.bits {
            self
        } else {
            other
        }
    }

    pub fn abs(self) -> (r: Fx)
        ensures
            r == fx_abs(self),
    {
        if self.bits < 0 {
            self.neg()
        } else {
            self
        }
    }

    /// Square root of the value.
    pub fn sqrt(self) -> (r: Fx)
        ensures
            r == fx_sqrt(self),
            r.bits >= 0,
    {
        if self.bits <= 0 {
            return Fx { bits: 0 };
        }
        let n: u128 = (self.bits as u128) * (FX_ONE as u128);
        let mut lo: u128 = 0;
        let mut hi: u128 = 0x100_0000_0000;
        proof {
            assert((0x100_0000_0000u128 as int) * (0x100_0000_0000u128 as int) > n as int)
                by (nonlinear_arith)
                requires n as int <= 0x7fff_ffff_ffff_ffffi64 as int * 0x10000;
        }
        while lo + 1 < hi
            invariant
                (lo as int) * (lo as int) <= n as int,
                (n as int) < (hi as int) * (hi as int),
                lo < hi,
                hi <= 0x100_0000_0000u128,
            decreases hi - lo,
        {
            let mid: u128 = lo + (hi - lo) / 2;
            proof {
                assert(mid * mid <= 0x100_0000_0000u128 * 0x100_0000_0000u128)
                    by (nonlinear_arith)
                    requires mid <= 0x100_0000_0000u128;
            }
            if mid * mid <= n {
                lo = mid;
            } else {
                hi = mid;
            }
        }
        proof {
            assert(is_isqrt(lo as int, n as int));
            lemma_isqrt_unique(lo as int, isqrt(n as int), n as int);
        }
        Fx { bits: lo as i64 }
    }

    /// Floor of the value, as an integer.
    pub fn floor(self) -> (r: i64)
        ensures
            r as int == fx_floor(self),
    {
        if self.bits >= 0 {
            ((self.bits as u64) / (FX_ONE as u64)) as i64
        } else {
            let m: u64 = ((-(self.bits as i128)) as u128) as u64;
            let q: u64 = (m + (FX_ONE as u64 - 1)) / (FX_ONE as u64);
            proof {
                lemma_neg_floor(m as int, FX_ONE as int);
            }
            -(q as i64)
        }
    }

    /// The value truncated toward zero, as an integer.
    pub fn trunc(self) -> (r: i64)
        ensures
            r as int == fx_trunc(self),
    {
        let m: u64 = wide_mag(self) as u64;
        let q: u64 = m / (FX_ONE as u64);
        proof {
            assert((m as int) / (FX_ONE as int) <= 0x8000_0000_0000_0000int / 0x10000int)
                by (nonlinear_arith)
                requires 0 <= m as int <= 0x8000_0000_0000_0000;
        }
        if self.bits < 0 {
            -(q as i64)
        } else {
            q as i64
        }
    }
}

/// Pi in fixed-point bits, rounded to the nearest representable value.
pub const FX_PI: i64 = 205887;

/// Two pi in fixed-point bits.
pub const FX_TWO_PI: i64 = 411775;

/// Half pi in fixed-point bits.
pub const FX_HALF_PI: i64 = 102944;

/// The argument reduced into `[0, two pi)`: the Euclidean remainder of
/// the bits by the fixed-point two pi.
pub open spec fn fx_reduce(a: Fx) -> int {
    (a.bits as int) % (FX_TWO_PI as int)
}

/// The degree-nine Taylor polynomial of the sine, evaluated in fixed
/// point at `y` (bits), for `y` already reduced into `(-pi, pi]`.
pub open spec fn sin_poly(y: Fx) -> Fx {
    let y2 = fx_mul(y, y);
    let y3 = fx_mul(y2, y);
    let y5 = fx_mul(y3, y2);
    let y7 = fx_mul(y5, y2);
    let y9 = fx_mul(y7, y2);
    let t3 = fx_div(y3, fx_from_int(6));
    let t5 = fx_div(y5, fx_from_int(120));
    let t7 = fx_div(y7, fx_from_int(5040));
    let t9 = fx_div(y9, fx_from_int(362880));
    fx_add(fx_sub(fx_add(fx_sub(y, t3), t5), t7), t9)
}

/// The sine: the argument is reduced into `(-pi, pi]`, the Taylor
/// polynomial is evaluated, and the result is clamped into the sine's
/// true range `[-1, 1]`.
pub open spec fn fx_sin(a: Fx) -> Fx {
    let m = fx_reduce(a);
    let y = if m > FX_PI as int {
        fx(m - FX_TWO_PI as int)
    } else {
        fx(m)
    };
    let s = sin_poly(y);
    if s.bits > FX_ONE {
        fx(FX_ONE as int)
    } else if s.bits < -FX_ONE {
        fx(-(FX_ONE as int))
    } else {
        s
    }
}

/// The cosine, as the sine shifted by half pi.
pub open spec fn fx_cos(a: Fx) -> Fx {
    fx_sin(fx_add(a, fx(FX_HALF_PI as int)))
}

impl Fx {
    /// The argument reduced into `[0, two pi)`.
    fn reduce(self) -> (r: i64)
        ensures
            r as int == fx_reduce(self),
            0 <= r < FX_TWO_PI,
    {
        if self.bits >= 0 {
            self.bits % FX_TWO_PI
        } else {
            let m: u64 = ((-(self.bits as i128)) as u128) as u64;
            let rem: u64 = m % (FX_TWO_PI as u64);
            proof {
                lemma_neg_mod(m as int, FX_TWO_PI as int);
            }
            if rem == 0 {
                0
            } else {
                FX_TWO_PI - (rem as i64)
            }
        }
    }

    /// The sine of the value, a clamped Taylor approximation; exact per
    /// its model `fx_sin`, and always within the unit range.
    pub fn sin(self) -> (r: Fx)
        ensures
            r == fx_sin(self),
            -FX_ONE <= r.bits <= FX_ONE,
    {
        let m: i64 = self.reduce();
        let y = if m > FX_PI {
            Fx { bits: m - FX_TWO_PI }
        } else {
            Fx { bits: m }
        };
        let y2 = y.mul(y);
        let y3 = y2.mul(y);
        let y5 = y3.mul(y2);
        let y7 = y5.mul(y2);
        let y9 = y7.mul(y2);
        let t3 = y3.div(Fx::from_int(6));
        let t5 = y5.div(Fx::from_int(120));
        let t7 = y7.div(Fx::from_int(5040));
        let t9 = y9.div(Fx::from_int(362880));
        let s = y.sub(t3).add(t5).sub(t7).add(t9);
        if s.bits > FX_ONE {
            Fx { bits: FX_ONE }
        } else if s.bits < -FX_ONE {
            Fx { bits: -FX_ONE }
        } else {
            s
        }
    }

    /// The cosine of the value, as the shifted sine.
    pub fn cos(self) -> (r: Fx)
        ensures
            r == fx_cos(self),
            -FX_ONE <= r.bits <= FX_ONE,
    {
        self.add(Fx { bits: FX_HALF_PI }).sin()
    }
}

/// Every nonnegative integer has an integer square root, so the
/// spec-level square root satisfies its defining property.
pub proof fn lemma_isqrt_exists(n: int)
    requires
        n >= 0,
    ensures
        is_isqrt(isqrt(n), n),
    decreases n,
{
    if n == 0 {
        assert(is_isqrt(0, 0)) by (nonlinear_arith);
    } else {
        lemma_isqrt_exists(n - 1);
        let w = isqrt(n - 1);
        if (w + 1) * (w + 1) <= n {
            assert(is_isqrt(w + 1, n)) by (nonlinear_arith)
                requires
                    is_isqrt(w, n - 1),
                    (w + 1) * (w + 1) <= n,
            ;
        } else {
            assert(is_isqrt(w, n)) by (nonlinear_arith)
                requires
                    is_isqrt(w, n - 1),
                    (w + 1) * (w + 1) > n,
            ;
        }
    }
}

/// The square root's bits are never negative, already at spec level.
pub proof fn lemma_fx_sqrt_nonneg(a: Fx)
    ensures
        fx_sqrt(a).bits >= 0,
{
    if a.bits > 0 {
        let n = a.bits as int * FX_ONE as int;
        lemma_isqrt_exists(n);
        let r = isqrt(n);
        assert(0 <= n && n <= 0x7fff_ffff_ffff_ffff * 0x10000) by (nonlinear_arith)
            requires
                n == a.bits as int * FX_ONE as int,
                0 < a.bits as int <= 0x7fff_ffff_ffff_ffff,
                FX_ONE == 65536,
        ;
        assert(0 <= r && r < 0x8000_0000_0000_0000) by (nonlinear_arith)
            requires
                is_isqrt(r, n),
                n <= 0x7fff_ffff_ffff_ffff * 0x10000,
        ;
    }
}

/// Division by a nonnegative divisor is monotone in the numerator.
pub proof fn lemma_fx_div_mono_num(n1: Fx, n2: Fx, d: Fx)
    requires
        n1.bits <= n2.bits,
        d.bits >= 0,
    ensures
        fx_div(n1, d).bits <= fx_div(n2, d).bits,
{
    if d.bits == 0 {
    } else {
        let md = mag(d.bits as int);
        if n1.bits >= 0 {
            vstd::arithmetic::div_mod::lemma_div_is_ordered(
                mag(n1.bits as int) * (FX_ONE as int),
                mag(n2.bits as int) * (FX_ONE as int),
                md,
            );
            vstd::arithmetic::div_mod::lemma_div_pos_is_pos(mag(n1.bits as int) * (FX_ONE as int), md);
        } else if n2.bits >= 0 {
            vstd::arithmetic::div_mod::lemma_div_pos_is_pos(mag(n1.bits as int) * (FX_ONE as int), md);
            vstd::arithmetic::div_mod::lemma_div_pos_is_pos(mag(n2.bits as int) * (FX_ONE as int), md);
        } else {
            vstd::arithmetic::div_mod::lemma_div_is_ordered(
                mag(n2.bits as int) * (FX_ONE as int),
                mag(n1.bits as int) * (FX_ONE as int),
                md,
            );
            vstd::arithmetic::div_mod::lemma_div_pos_is_pos(mag(n2.bits as int) * (FX_ONE as int), md);
        }
    }
}

/// An exec-established integer square root pins the spec's choice.
pub proof fn lemma_isqrt_exact(r: int, n: int)
    requires
        is_isqrt(r, n),
    ensures
        isqrt(n) == r,
{
    lemma_isqrt_unique(r, isqrt(n), n);
}

/// Multiplying by zero gives zero, on either side.
pub proof fn lemma_fx_mul_zero(x: Fx)
    ensures
        fx_mul(x, fx(0)) == fx(0),
        fx_mul(fx(0), x) == fx(0),
{
    vstd::arithmetic::div_mod::lemma_div_of0(FX_ONE as int);
    assert(mag(x.bits as int) * mag(0int) == 0 && mag(0int) * mag(x.bits as int) == 0)
        by (nonlinear_arith)
        requires
            mag(0int) == 0,
    ;
}

/// The product of two scalars within the unit range stays within it.
pub proof fn lemma_fx_mul_unit_bounded(a: Fx, b: Fx)
    requires
        -FX_ONE <= a.bits <= FX_ONE,
        -FX_ONE <= b.bits <= FX_ONE,
    ensures
        -FX_ONE <= fx_mul(a, b).bits <= FX_ONE,
{
    let m = mag(a.bits as int) * mag(b.bits as int);
    assert(0 <= m && m <= 65536int * 65536int) by (nonlinear_arith)
        requires
            m == mag(a.bits as int) * mag(b.bits as int),
            0 <= mag(a.bits as int) <= 65536,
            0 <= mag(b.bits as int) <= 65536,
    ;
    vstd::arithmetic::div_mod::lemma_div_pos_is_pos(m, FX_ONE as int);
    vstd::arithmetic::div_mod::lemma_div_is_ordered(m, 65536int * 65536int, FX_ONE as int);
    assert((65536int * 65536int) / 65536int == 65536int) by (nonlinear_arith);
}

/// The square root of a value of at most one is at most one.
pub proof fn lemma_fx_sqrt_le_one(a: Fx)
    requires
        a.bits <= FX_ONE,
    ensures
        fx_sqrt(a).bits <= FX_ONE,
{
    if a.bits > 0 {
        let n = a.bits as int * FX_ONE as int;
        lemma_isqrt_exists(n);
        let r = isqrt(n);
        assert(r <= 65536) by (nonlinear_arith)
            requires
                is_isqrt(r, n),
                n <= 65536int * 65536int,
        ;
    }
}

/// Multiplying a representable scalar by one is exact.
pub proof fn lemma_fx_mul_one(x: Fx)
    requires
        fx_wf(x),
    ensures
        fx_mul(x, fx(FX_ONE as int)) == x,
        fx_mul(fx(FX_ONE as int), x) == x,
{
    vstd::arithmetic::div_mod::lemma_div_multiples_vanish(mag(x.bits as int), FX_ONE as int);
    assert(mag(x.bits as int) * (FX_ONE as int) == (FX_ONE as int) * mag(x.bits as int))
        by (nonlinear_arith);
}

/// Multiplying a representable scalar by minus one negates it exactly.
pub proof fn lemma_fx_mul_neg_one(x: Fx)
    requires
        fx_wf(x),
    ensures
        fx_mul(x, fx(-(FX_ONE as int))) == fx_neg(x),
{
    vstd::arithmetic::div_mod::lemma_div_multiples_vanish(mag(x.bits as int), FX_ONE as int);
    assert(mag(x.bits as int) * mag(-(FX_ONE as int)) == mag(x.bits as int) * (FX_ONE as int))
        by (nonlinear_arith);
}

/// Dividing a representable scalar by one is exact.
pub proof fn lemma_fx_div_one(x: Fx)
    requires
        fx_wf(x),
    ensures
        fx_div(x, fx(FX_ONE as int)) == x,
{
    vstd::arithmetic::div_mod::lemma_div_multiples_vanish(mag(x.bits as int), FX_ONE as int);
}

/// For `m >= 0` and `d > 0`, the Euclidean remainder of `-m` is zero
/// when `d` divides `m` and the complement of `m`'s remainder
/// otherwise.
pub proof fn lemma_neg_mod(m: int, d: int)
    requires
        m >= 0,
        d > 0,
    ensures
        m % d == 0 ==> (-m) % d == 0,
        m % d != 0 ==> (-m) % d == d - (m % d),
{
    let q = m / d;
    let r = m % d;
    vstd::arithmetic::div_mod::lemma_fundamental_div_mod(m, d);
    if r == 0 {
        assert(-m == (-q) * d + 0) by (nonlinear_arith)
            requires m == q * d + r, r == 0;
        vstd::arithmetic::div_mod::lemma_fundamental_div_mod_converse(-m, d, -q, 0);
    } else {
        assert(-m == (-q - 1) * d + (d - r)) by (nonlinear_arith)
            requires m == q * d + r, 0 < r < d;
        vstd::arithmetic::div_mod::lemma_fundamental_div_mod_converse(-m, d, -q - 1, d - r);
    }
}

/// For `m > 0` and `d > 0`, the floor of `-m / d` is the negated
/// ceiling of `m / d`.
proof fn lemma_neg_floor(m: int, d: int)
    requires
        m > 0,
        d > 0,
    ensures
        (-m) / d == -((m + d - 1) / d),
{
    let q = m / d;
    let r = m % d;
    vstd::arithmetic::div_mod::lemma_fundamental_div_mod(m, d);
    if r == 0 {
        assert(-m == (-q) * d + 0 && m + d - 1 == q * d + (d - 1)) by (nonlinear_arith)
            requires m == q * d + r, r == 0;
        vstd::arithmetic::div_mod::lemma_fundamental_div_mod_converse(-m, d, -q, 0);
        vstd::arithmetic::div_mod::lemma_fundamental_div_mod_converse(m + d - 1, d, q, d - 1);
    } else {
        assert(-m == (-q - 1) * d + (d - r) && m + d - 1 == (q + 1) * d + (r - 1))
            by (nonlinear_arith)
            requires m == q * d + r, 0 < r < d;
        vstd::arithmetic::div_mod::lemma_fundamental_div_mod_converse(-m, d, -q - 1, d - r);
        vstd::arithmetic::div_mod::lemma_fundamental_div_mod_converse(m + d - 1, d, q + 1, r - 1);
    }
}

} // verus!
