//! Colors and their text renderings: the display form used by the
//! color type itself, and the gamma-corrected, quantized pixel line of
//! the plain-text image format.

use vstd::prelude::*;
use crate::fixed::{Fx, FX_ONE, fx_mul, fx_div, fx_sqrt, fx_trunc, fx_from_int};
use crate::vec3::Vec3;
use crate::display::{dec_seq, dec_seq_signed, u64_dec, i64_dec};

verus! {

/// `255.999` in fixed point, the display quantization factor.
pub const COLOR_QUANT: i64 = 16777150;

/// `0.999` in fixed point, the upper clamp of the pixel writer.
pub const PIXEL_CLAMP: i64 = 65470;

/// `256` in fixed point, the byte scale of the pixel writer.
pub const PIXEL_SCALE: i64 = 16777216;

/// A color is a vector of red, green and blue intensities.
#[derive(Clone, Copy, Debug, PartialEq, Eq, Structural)]
pub struct Color(pub Vec3);

/// Every component of the color lies in the unit interval.
pub open spec fn color_in_unit(c: Color) -> bool {
    &&& 0 <= c.0.x.bits <= FX_ONE
    &&& 0 <= c.0.y.bits <= FX_ONE
    &&& 0 <= c.0.z.bits <= FX_ONE
}

/// Clamp a scalar into `[min, max]`.
pub open spec fn clamp_spec(x: Fx, min: Fx, max: Fx) -> Fx {
    if x.bits < min.bits {
        min
    } else if x.bits > max.bits {
        max
    } else {
        x
    }
}

/// One display component: the intensity scaled by `255.999` and
/// truncated to an integer.
pub open spec fn color_component(v: Fx) -> int {
    fx_trunc(fx_mul(v, Fx { bits: COLOR_QUANT }))
}

/// The display rendering of a color: three quantized components
/// separated by spaces, ending in a newline.
pub open spec fn color_dec_seq(c: Color) -> Seq<char> {
    dec_seq_signed(color_component(c.0.x)) + seq![' '] + dec_seq_signed(color_component(c.0.y))
        + seq![' '] + dec_seq_signed(color_component(c.0.z)) + seq!['\n']
}

/// One pixel component: averaged over the samples, gamma-corrected by
/// a square root, clamped to `[0, 0.999]` and scaled to a byte.
pub open spec fn pixel_component(v: Fx, samples_per_pixel: int) -> int {
    let scale = fx_div(Fx { bits: FX_ONE }, fx_from_int(samples_per_pixel));
    let g = fx_sqrt(fx_mul(v, scale));
    let c = clamp_spec(g, Fx { bits: 0 }, Fx { bits: PIXEL_CLAMP });
    fx_trunc(fx_mul(Fx { bits: PIXEL_SCALE }, c))
}

/// The pixel line of a color: three byte values separated by spaces,
/// ending in a newline.
pub open spec fn pixel_line(c: Color, samples_per_pixel: int) -> Seq<char> {
    dec_seq(pixel_component(c.0.x, samples_per_pixel)) + seq![' ']
        + dec_seq(pixel_component(c.0.y, samples_per_pixel)) + seq![' ']
        + dec_seq(pixel_component(c.0.z, samples_per_pixel)) + seq!['\n']
}

impl Color {
    /// The display rendering, exactly `color_dec_seq`.
    pub fn display_string(&self) -> (s: String)
        ensures
            s@ == color_dec_seq(*self),
    {
        let q = Fx { bits: COLOR_QUANT };
        let mut s = i64_dec(self.0.x.mul(q).trunc());
        s.append(" ");
        proof {
            reveal_strlit(" ");
            reveal_strlit("\n");
        }
        s.append(i64_dec(self.0.y.mul(q).trunc()).as_str());
        s.append(" ");
        s.append(i64_dec(self.0.z.mul(q).trunc()).as_str());
        s.append("\n");
        proof {
            assert(s@ =~= color_dec_seq(*self));
        }
        s
    }
}

/// Clamp a scalar into `[min, max]`.
pub fn clamp(x: Fx, min: Fx, max: Fx) -> (r: Fx)
    ensures
        r == clamp_spec(x, min, max),
{
    if x.bits < min.bits {
        min
    } else if x.bits > max.bits {
        max
    } else {
        x
    }
}

/// Quantize one averaged intensity to its byte value.
fn quantize(v: Fx, scale: Fx) -> (r: u64)
    ensures
        r as int == fx_trunc(
            fx_mul(
                Fx { bits: PIXEL_SCALE },
                clamp_spec(fx_sqrt(fx_mul(v, scale)), Fx { bits: 0 }, Fx { bits: PIXEL_CLAMP }),
            ),
        ),
        r <= 255,
{
    let g = v.mul(scale).sqrt();
    let c = clamp(g, Fx { bits: 0 }, Fx { bits: PIXEL_CLAMP });
    let q = Fx { bits: PIXEL_SCALE }.mul(c);
    let t = q.trunc();
    proof {
        assert(fx_mul(Fx { bits: PIXEL_SCALE }, c).bits <= 256 * (PIXEL_CLAMP as int)
            && fx_mul(Fx { bits: PIXEL_SCALE }, c).bits >= 0) by (nonlinear_arith)
            requires 0 <= c.bits <= PIXEL_CLAMP;
    }
    t as u64
}

/// The averaged color of one pixel, rendered as the "R G B" line of
/// the plain-text image format: scaled by the sample count,
/// gamma-corrected, clamped and quantized to bytes.
pub fn write_color(pixel_color: Color, samples_per_pixel: i32) -> (s: String)
    ensures
        s@ == pixel_line(pixel_color, samples_per_pixel as int),
{
    let scale = Fx { bits: FX_ONE }.div(Fx::from_int(samples_per_pixel as i64));
    let mut s = u64_dec(quantize(pixel_color.0.x, scale));
    s.append(" ");
    proof {
        reveal_strlit(" ");
        reveal_strlit("\n");
    }
    s.append(u64_dec(quantize(pixel_color.0.y, scale)).as_str());
    s.append(" ");
    s.append(u64_dec(quantize(pixel_color.0.z, scale)).as_str());
    s.append("\n");
    proof {
        assert(s@ =~= pixel_line(pixel_color, samples_per_pixel as int));
    }
    s
}

} // verus!
