//! Textures: a solid color, the three-dimensional two-color checker,
//! the marbled noise pattern, and an image-backed lookup over a plain
//! pixel buffer. Each returns exactly the color its spec describes,
//! and a well-formed texture whose stored colors lie in the unit range
//! only ever returns unit-range colors.

use vstd::prelude::*;
use crate::fixed::{
    Fx, FX_ONE, fx, fx_add, fx_sub, fx_mul, fx_div, fx_sin, fx_from_int, fx_trunc,
};
use crate::vec3::{Vec3, Point3, v3_scale};
use crate::color::{Color, color_in_unit, clamp_spec, clamp};
use crate::perlin::{Perlin, perlin_wf, perlin_eq, turb_spec, lemma_turb_eq};

verus! {

pub struct SolidColor {
    pub color: Color,
}

pub struct CheckerTexture {
    pub odd: Box<Texture>,
    pub even: Box<Texture>,
}

pub struct NoiseTexture {
    pub noise: Perlin,
    pub scale: Fx,
}

/// An image held as plain rows of red, green and blue bytes, top row
/// first; decoding a file into this form is the caller's concern.
pub struct ImageTexture {
    pub data: Vec<u8>,
    pub width: usize,
    pub height: usize,
}

/// The closed set of texture variants, dispatched by matching.
pub enum Texture {
    Solid(SolidColor),
    Checker(CheckerTexture),
    Noise(NoiseTexture),
    Image(ImageTexture),
}

/// A texture the sampler may evaluate: noise tables are complete and
/// an image's buffer holds exactly its pixels.
pub open spec fn texture_wf(t: Texture) -> bool
    decreases t,
{
    match t {
        Texture::Solid(_) => true,
        Texture::Checker(c) => texture_wf(*c.odd) && texture_wf(*c.even),
        Texture::Noise(n) => perlin_wf(n.noise),
        Texture::Image(i) => {
            &&& 1 <= i.width <= 0x7fff_ffff
            &&& 1 <= i.height <= 0x7fff_ffff
            &&& i.data@.len() == 3 * i.width * i.height
        },
    }
}

/// Every color stored in the texture lies in the unit range; noise and
/// image lookups produce unit-range colors by construction.
pub open spec fn texture_unit(t: Texture) -> bool
    decreases t,
{
    match t {
        Texture::Solid(s) => color_in_unit(s.color),
        Texture::Checker(c) => texture_unit(*c.odd) && texture_unit(*c.even),
        Texture::Noise(_) => true,
        Texture::Image(_) => true,
    }
}

/// Two textures with the same stored contents: colors, checker
/// children, noise tables and scales, and image pixels all agree, so
/// the textures yield the same color at every coordinate.
pub open spec fn texture_eq(a: Texture, b: Texture) -> bool
    decreases a,
{
    match (a, b) {
        (Texture::Solid(s1), Texture::Solid(s2)) => s1.color == s2.color,
        (Texture::Checker(c1), Texture::Checker(c2)) => texture_eq(*c1.odd, *c2.odd)
            && texture_eq(*c1.even, *c2.even),
        (Texture::Noise(n1), Texture::Noise(n2)) => n1.scale == n2.scale && perlin_eq(
            n1.noise,
            n2.noise,
        ),
        (Texture::Image(i1), Texture::Image(i2)) => i1.data@ == i2.data@ && i1.width == i2.width
            && i1.height == i2.height,
        _ => false,
    }
}

/// Content equality is reflexive.
pub proof fn lemma_texture_eq_refl(a: Texture)
    ensures
        texture_eq(a, a),
    decreases a,
{
    match a {
        Texture::Checker(c) => {
            lemma_texture_eq_refl(*c.odd);
            lemma_texture_eq_refl(*c.even);
        },
        _ => {},
    }
}

/// Textures with the same contents agree everywhere: same value at
/// every coordinate, and the same well-formedness and unit-range
/// status.
pub proof fn lemma_texture_eq_value(a: Texture, b: Texture, u: Fx, v: Fx, p: Point3)
    requires
        texture_eq(a, b),
    ensures
        texture_value(a, u, v, p) == texture_value(b, u, v, p),
        texture_wf(a) == texture_wf(b),
        texture_unit(a) == texture_unit(b),
    decreases a,
{
    match (a, b) {
        (Texture::Checker(c1), Texture::Checker(c2)) => {
            lemma_texture_eq_value(*c1.odd, *c2.odd, u, v, p);
            lemma_texture_eq_value(*c1.even, *c2.even, u, v, p);
        },
        (Texture::Noise(n1), Texture::Noise(n2)) => {
            lemma_turb_eq(
                n1.noise,
                n2.noise,
                v3_scale(p, n1.scale),
                fx(FX_ONE as int),
                fx(0),
                7,
            );
        },
        _ => {},
    }
}

/// The nearest-pixel image lookup: coordinates clamped to the unit
/// square, the vertical axis flipped, scaled to pixel indices and
/// clamped to the image bounds.
pub open spec fn image_value(t: ImageTexture, u: Fx, v: Fx) -> Color {
    let one = fx(FX_ONE as int);
    let uc = clamp_spec(u, fx(0), one);
    let vc = fx_sub(one, clamp_spec(v, fx(0), one));
    let i0 = fx_trunc(fx_mul(uc, fx_from_int(t.width as int)));
    let j0 = fx_trunc(fx_mul(vc, fx_from_int(t.height as int)));
    let i = if i0 >= t.width as int { t.width as int - 1 } else { i0 };
    let j = if j0 >= t.height as int { t.height as int - 1 } else { j0 };
    let scale = fx_div(one, fx_from_int(255));
    let base = 3 * (j * t.width + i);
    Color(Vec3 {
        x: fx_mul(fx_from_int(t.data@[base] as int), scale),
        y: fx_mul(fx_from_int(t.data@[base + 1] as int), scale),
        z: fx_mul(fx_from_int(t.data@[base + 2] as int), scale),
    })
}

/// The marbled noise pattern: a sinusoid of depth-seven turbulence.
pub open spec fn noise_value(t: NoiseTexture, p: Point3) -> Color {
    let one = fx(FX_ONE as int);
    let inner = fx_add(
        fx_mul(t.scale, p.z),
        fx_mul(fx_from_int(10), turb_spec(t.noise, v3_scale(p, t.scale), 7)),
    );
    let ones = Vec3 { x: one, y: one, z: one };
    Color(v3_scale(v3_scale(ones, fx(32768)), fx_add(one, fx_sin(inner))))
}

/// The checker selector: the product of the three axis sinusoids at
/// ten times the point; negative picks the odd texture.
pub open spec fn checker_sines(p: Point3) -> Fx {
    let ten = fx_from_int(10);
    fx_mul(
        fx_mul(fx_sin(fx_mul(ten, p.x)), fx_sin(fx_mul(ten, p.y))),
        fx_sin(fx_mul(ten, p.z)),
    )
}

/// The color a texture yields at surface coordinates `(u, v)` and
/// point `p`.
pub open spec fn texture_value(t: Texture, u: Fx, v: Fx, p: Point3) -> Color
    decreases t,
{
    match t {
        Texture::Solid(s) => s.color,
        Texture::Checker(c) => if checker_sines(p).bits < 0 {
            texture_value(*c.odd, u, v, p)
        } else {
            texture_value(*c.even, u, v, p)
        },
        Texture::Noise(n) => noise_value(n, p),
        Texture::Image(i) => image_value(i, u, v),
    }
}

impl SolidColor {
    pub fn new_from_color(c: Color) -> (r: SolidColor)
        ensures
            r == (SolidColor { color: c }),
    {
        SolidColor { color: c }
    }

    pub fn new_from_raw(r: Fx, g: Fx, b: Fx) -> (t: SolidColor)
        ensures
            t == (SolidColor { color: Color(Vec3 { x: r, y: g, z: b }) }),
    {
        SolidColor { color: Color(Vec3 { x: r, y: g, z: b }) }
    }
}

impl CheckerTexture {
    /// A two-color checker of solid colors.
    pub fn new(c1: Color, c2: Color) -> (t: CheckerTexture)
        ensures
            *t.odd == Texture::Solid(SolidColor { color: c1 }),
            *t.even == Texture::Solid(SolidColor { color: c2 }),
    {
        CheckerTexture {
            odd: Box::new(Texture::Solid(SolidColor::new_from_color(c1))),
            even: Box::new(Texture::Solid(SolidColor::new_from_color(c2))),
        }
    }
}

impl ImageTexture {
    /// Wrap an already decoded pixel buffer: three bytes per pixel,
    /// row-major, top row first.
    pub fn new_from_pixels(data: Vec<u8>, width: usize, height: usize) -> (t: ImageTexture)
        requires
            1 <= width <= 0x7fff_ffff,
            1 <= height <= 0x7fff_ffff,
            data@.len() == 3 * width * height,
        ensures
            t == (ImageTexture { data, width, height }),
            texture_wf(Texture::Image(t)),
    {
        let t = ImageTexture { data, width, height };
        proof {
            assert(texture_wf(Texture::Image(ImageTexture { data: t.data, width, height })));
        }
        t
    }
}

impl Texture {
    /// The color at `(u, v)` and `p`: exactly `texture_value`, and in
    /// the unit range whenever the stored colors are.
    pub fn value(&self, u: Fx, v: Fx, p: &Point3) -> (r: Color)
        requires
            texture_wf(*self),
        ensures
            r == texture_value(*self, u, v, *p),
            texture_unit(*self) ==> color_in_unit(r),
        decreases *self,
    {
        match self {
            Texture::Solid(s) => s.color,
            Texture::Checker(c) => {
                let ten = Fx::from_int(10);
                let sines = ten.mul(p.x).sin().mul(ten.mul(p.y).sin()).mul(ten.mul(p.z).sin());
                if sines.bits < 0 {
                    c.odd.value(u, v, p)
                } else {
                    c.even.value(u, v, p)
                }
            },
            Texture::Noise(n) => {
                let one = Fx { bits: FX_ONE };
                let inner = n.scale.mul(p.z).add(
                    Fx::from_int(10).mul(n.noise.turb(&p.scale(n.scale), 7)),
                );
                let ones = Vec3 { x: one, y: one, z: one };
                let r = Color(ones.scale(Fx { bits: 32768 }).scale(one.add(inner.sin())));
                proof {
                    lemma_marble_unit(fx_sin(inner));
                }
                r
            },
            Texture::Image(img) => {
                let one = Fx { bits: FX_ONE };
                let uc = clamp(u, Fx { bits: 0 }, one);
                let vc = one.sub(clamp(v, Fx { bits: 0 }, one));
                let i0 = uc.mul(Fx::from_int(img.width as i64)).trunc();
                let j0 = vc.mul(Fx::from_int(img.height as i64)).trunc();
                proof {
                    lemma_pixel_index(*img, uc, vc);
                }
                let i: usize = if i0 < 0 {
                    0
                } else if i0 >= img.width as i64 {
                    img.width - 1
                } else {
                    i0 as usize
                };
                let j: usize = if j0 < 0 {
                    0
                } else if j0 >= img.height as i64 {
                    img.height - 1
                } else {
                    j0 as usize
                };
                let scale = one.div(Fx::from_int(255));
                let len = img.data.len();
                proof {
                    assert((j as int) * (img.width as int) + (i as int) + 1
                        <= (img.width as int) * (img.height as int)) by (nonlinear_arith)
                        requires
                            0 <= (i as int),
                            (i as int) + 1 <= (img.width as int),
                            0 <= (j as int),
                            (j as int) + 1 <= (img.height as int),
                    ;
                    assert((j as int) * (img.width as int) >= 0) by (nonlinear_arith)
                        requires
                            0 <= (j as int),
                            0 <= (img.width as int),
                    ;
                    assert((img.width as int) * (img.height as int) <= 4611686014132420609int)
                        by (nonlinear_arith)
                        requires
                            0 <= (img.width as int),
                            (img.width as int) <= 0x7fff_ffff,
                            0 <= (img.height as int),
                            (img.height as int) <= 0x7fff_ffff,
                    ;
                }
                let base64: u64 = 3 * ((j as u64) * (img.width as u64) + (i as u64));
                proof {
                    assert(texture_wf(Texture::Image(*img)));
                    assert(img.data@.len() == 3 * (img.width as int) * (img.height as int));
                    assert(len as int == 3 * (img.width as int) * (img.height as int));
                    assert(base64 as int + 2 < 3 * (img.width as int) * (img.height as int))
                        by (nonlinear_arith)
                        requires
                            base64 as int == 3 * ((j as int) * (img.width as int) + (i as int)),
                            0 <= (i as int),
                            (i as int) + 1 <= (img.width as int),
                            0 <= (j as int),
                            (j as int) + 1 <= (img.height as int),
                    ;
                    assert(base64 as int + 2 < len as int);
                }
                let base: usize = base64 as usize;
                proof {
                    lemma_byte_scale(img.data@[base as int] as int);
                    lemma_byte_scale(img.data@[base as int + 1] as int);
                    lemma_byte_scale(img.data@[base as int + 2] as int);
                }
                Color(Vec3 {
                    x: Fx::from_int(img.data[base] as i64).mul(scale),
                    y: Fx::from_int(img.data[base + 1] as i64).mul(scale),
                    z: Fx::from_int(img.data[base + 2] as i64).mul(scale),
                })
            },
        }
    }
}

/// A byte intensity scaled by one over 255 lies in the unit range.
proof fn lemma_byte_scale(b: int)
    requires
        0 <= b <= 255,
    ensures
        0 <= fx_mul(fx_from_int(b), fx_div(fx(FX_ONE as int), fx_from_int(255))).bits,
        fx_mul(fx_from_int(b), fx_div(fx(FX_ONE as int), fx_from_int(255))).bits <= FX_ONE,
{
    assert(255int * 65536int == 16711680int) by (nonlinear_arith);
    assert(fx_from_int(255).bits == 16711680);
    let sc = fx_div(fx(FX_ONE as int), fx_from_int(255));
    assert(257int * 16711680int + 65536int == 4294967296int) by (nonlinear_arith);
    assert(65536int * 65536int == 4294967296int) by (nonlinear_arith);
    vstd::arithmetic::div_mod::lemma_fundamental_div_mod_converse(
        4294967296int,
        16711680int,
        257int,
        65536int,
    );
    assert(sc.bits == 257);
    let fb = fx_from_int(b);
    assert(0 <= b * 65536 <= 16711680) by (nonlinear_arith)
        requires
            0 <= b <= 255,
    ;
    assert(fb.bits as int == b * 65536);
    let x = (b * 65536) * 257;
    assert(x == (257 * b) * 65536 && 0 <= 257 * b <= 65535) by (nonlinear_arith)
        requires
            x == (b * 65536) * 257,
            0 <= b <= 255,
    ;
    vstd::arithmetic::div_mod::lemma_div_multiples_vanish(257 * b, 65536int);
    assert(fx_mul(fb, sc).bits as int == 257 * b);
}

/// Half of one plus a unit-range sinusoid lies in the unit range.
proof fn lemma_marble_unit(s: Fx)
    requires
        -FX_ONE <= s.bits <= FX_ONE,
    ensures
        0 <= fx_mul(fx_mul(fx(FX_ONE as int), fx(32768)), fx_add(fx(FX_ONE as int), s)).bits
            <= FX_ONE,
{
    let h = fx_mul(fx(FX_ONE as int), fx(32768));
    assert((65536int * 32768int) / 65536int == 32768int) by (nonlinear_arith);
    assert(h.bits == 32768);
    let t = fx_add(fx(FX_ONE as int), s);
    assert(0 <= t.bits <= 2 * FX_ONE);
    let x = 32768int * (t.bits as int);
    let prod = x / 65536int;
    assert(0 <= x && x <= 4294967296int) by (nonlinear_arith)
        requires
            x == 32768int * (t.bits as int),
            0 <= (t.bits as int),
            (t.bits as int) <= 131072,
    ;
    vstd::arithmetic::div_mod::lemma_div_pos_is_pos(x, 65536int);
    vstd::arithmetic::div_mod::lemma_div_is_ordered(x, 4294967296int, 65536int);
    vstd::arithmetic::div_mod::lemma_div_multiples_vanish(65536int, 65536int);
    assert(65536int * 65536int == 4294967296int) by (nonlinear_arith);
    assert(prod <= 65536int);
    assert(fx_mul(h, t).bits as int == prod);
}

/// An element-for-element copy of a byte buffer.
fn clone_bytes(v: &Vec<u8>) -> (r: Vec<u8>)
    ensures
        r@ == v@,
{
    let mut r: Vec<u8> = Vec::new();
    let mut i: usize = 0;
    while i < v.len()
        invariant
            i <= v@.len(),
            r@ == v@.subrange(0, i as int),
        decreases v@.len() - i,
    {
        r.push(v[i]);
        proof {
            assert(r@ =~= v@.subrange(0, i + 1));
        }
        i = i + 1;
    }
    proof {
        assert(r@ =~= v@);
    }
    r
}

impl Texture {
    /// A copy with the same contents, so the copy yields the same
    /// color at every coordinate; composites share one texture among
    /// several owners this way.
    pub fn duplicate(&self) -> (t: Texture)
        ensures
            texture_eq(t, *self),
            texture_wf(*self) ==> texture_wf(t),
            texture_unit(*self) ==> texture_unit(t),
        decreases *self,
    {
        match self {
            Texture::Solid(s) => Texture::Solid(SolidColor { color: s.color }),
            Texture::Checker(c) => Texture::Checker(
                CheckerTexture {
                    odd: Box::new(c.odd.duplicate()),
                    even: Box::new(c.even.duplicate()),
                },
            ),
            Texture::Noise(n) => Texture::Noise(
                NoiseTexture { noise: n.noise.duplicate(), scale: n.scale },
            ),
            Texture::Image(i) => Texture::Image(
                ImageTexture { data: clone_bytes(&i.data), width: i.width, height: i.height },
            ),
        }
    }
}

/// For unit-clamped coordinates the scaled pixel indices are never
/// negative, so the clamped lookup indices match the spec's.
proof fn lemma_pixel_index(img: ImageTexture, uc: Fx, vc: Fx)
    requires
        0 <= uc.bits,
        0 <= vc.bits,
        1 <= img.width <= 0x7fff_ffff,
        1 <= img.height <= 0x7fff_ffff,
    ensures
        fx_trunc(fx_mul(uc, fx_from_int(img.width as int))) >= 0,
        fx_trunc(fx_mul(vc, fx_from_int(img.height as int))) >= 0,
{
}

} // verus!
