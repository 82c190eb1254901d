//! Decimal rendering of scalars, used by the vector and color display
//! methods and by the pixel writer. Every function returns exactly the
//! character sequence its spec describes.

use vstd::prelude::*;
use crate::fixed::{Fx, FX_ONE, mag};

verus! {

/// The decimal digit character for `d` in `0..10`.
pub open spec fn dec_digit(d: int) -> char {
    if d == 0 {
        '0'
    } else if d == 1 {
        '1'
    } else if d == 2 {
        '2'
    } else if d == 3 {
        '3'
    } else if d == 4 {
        '4'
    } else if d == 5 {
        '5'
    } else if d == 6 {
        '6'
    } else if d == 7 {
        '7'
    } else if d == 8 {
        '8'
    } else {
        '9'
    }
}

/// The decimal digits of a nonnegative integer, most significant first.
pub open spec fn dec_seq(n: int) -> Seq<char>
    decreases n,
{
    if n < 10 {
        seq![dec_digit(n)]
    } else {
        dec_seq(n / 10).push(dec_digit(n % 10))
    }
}

/// The decimal digits of a signed integer.
pub open spec fn dec_seq_signed(n: int) -> Seq<char> {
    if n < 0 {
        seq!['-'] + dec_seq(-n)
    } else {
        dec_seq(n)
    }
}

/// The digits after the decimal point of `f / FX_ONE`, for `f` in
/// `(0, FX_ONE)`, with no trailing zeros; `k` bounds the expansion and
/// sixteen digits always suffice.
pub open spec fn frac_seq(f: int, k: nat) -> Seq<char>
    decreases k,
{
    if f == 0 || k == 0 {
        Seq::empty()
    } else {
        seq![dec_digit((f * 10) / (FX_ONE as int))] + frac_seq((f * 10) % (FX_ONE as int), (k - 1) as nat)
    }
}

/// The decimal rendering of a scalar: sign, integer part, and, when the
/// fractional bits are not zero, a point and the fractional digits.
pub open spec fn fx_dec_seq(a: Fx) -> Seq<char> {
    let m = mag(a.bits as int);
    let ip = m / (FX_ONE as int);
    let fp = m % (FX_ONE as int);
    let sign = if a.bits < 0 { seq!['-'] } else { Seq::<char>::empty() };
    if fp == 0 {
        sign + dec_seq(ip)
    } else {
        sign + dec_seq(ip) + seq!['.'] + frac_seq(fp, 16)
    }
}

/// The digit character for `d` below ten.
fn digit_str(d: u64) -> (r: &'static str)
    requires
        d < 10,
    ensures
        r@ == seq![dec_digit(d as int)],
{
    proof {
        reveal_strlit("0");
        reveal_strlit("1");
        reveal_strlit("2");
        reveal_strlit("3");
        reveal_strlit("4");
        reveal_strlit("5");
        reveal_strlit("6");
        reveal_strlit("7");
        reveal_strlit("8");
        reveal_strlit("9");
    }
    let r: &'static str = if d == 0 {
        "0"
    } else if d == 1 {
        "1"
    } else if d == 2 {
        "2"
    } else if d == 3 {
        "3"
    } else if d == 4 {
        "4"
    } else if d == 5 {
        "5"
    } else if d == 6 {
        "6"
    } else if d == 7 {
        "7"
    } else if d == 8 {
        "8"
    } else {
        "9"
    };
    proof {
        assert(r@ =~= seq![dec_digit(d as int)]);
    }
    r
}

/// Decimal rendering of a nonnegative integer.
pub fn u64_dec(n: u64) -> (s: String)
    ensures
        s@ == dec_seq(n as int),
    decreases n,
{
    if n < 10 {
        String::from_str(digit_str(n))
    } else {
        let mut s = u64_dec(n / 10);
        s.append(digit_str(n % 10));
        proof {
            assert(s@ =~= dec_seq(n as int));
        }
        s
    }
}

/// Decimal rendering of a signed integer.
pub fn i64_dec(n: i64) -> (s: String)
    ensures
        s@ == dec_seq_signed(n as int),
{
    if n < 0 {
        let m: u64 = ((-(n as i128)) as u128) as u64;
        let mut s = String::from_str("-");
        proof {
            reveal_strlit("-");
        }
        s.append(u64_dec(m).as_str());
        proof {
            assert(s@ =~= dec_seq_signed(n as int));
        }
        s
    } else {
        u64_dec(n as u64)
    }
}

/// The fractional digits of `f / FX_ONE`, at most `k` of them.
fn frac_dec(f: u64, k: u64) -> (s: String)
    requires
        f < FX_ONE as u64,
    ensures
        s@ == frac_seq(f as int, k as nat),
    decreases k,
{
    if f == 0 || k == 0 {
        String::new()
    } else {
        let scaled: u64 = f * 10;
        proof {
            assert((scaled as int) / (FX_ONE as int) < 10) by (nonlinear_arith)
                requires
                    (scaled as int) < 655360,
            ;
        }
        let mut s = String::from_str(digit_str(scaled / (FX_ONE as u64)));
        s.append(frac_dec(scaled % (FX_ONE as u64), k - 1).as_str());
        proof {
            assert(s@ =~= frac_seq(f as int, k as nat));
        }
        s
    }
}

/// Decimal rendering of a scalar, exact: the digits printed denote
/// precisely the represented value.
pub fn fx_dec(a: Fx) -> (s: String)
    ensures
        s@ == fx_dec_seq(a),
{
    let m: u64 = if a.bits < 0 {
        ((-(a.bits as i128)) as u128) as u64
    } else {
        a.bits as u64
    };
    let ip: u64 = m / (FX_ONE as u64);
    let fp: u64 = m % (FX_ONE as u64);
    let mut s = if a.bits < 0 {
        let mut t = String::from_str("-");
        proof {
            reveal_strlit("-");
        }
        t
    } else {
        String::new()
    };
    s.append(u64_dec(ip).as_str());
    if fp != 0 {
        s.append(".");
        proof {
            reveal_strlit(".");
        }
        s.append(frac_dec(fp, 16).as_str());
    }
    proof {
        assert(s@ =~= fx_dec_seq(a));
    }
    s
}

} // verus!
