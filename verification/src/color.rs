//! Linear RGB radiance and attenuation values.

use crate::fixed::Fx;
use crate::fixed::fx_add_s;
use crate::fixed::fx_div_s;
use crate::fixed::fx_int;
use crate::fixed::fx_mul_s;
use crate::fixed::fx_sqrt_s;
use crate::fixed::fx_sub_s;
use vstd::prelude::*;

verus! {

/// A linear RGB color; radiance components lie in `[0, 1]` before
/// quantization.
#[derive(Clone, Copy, Debug, PartialEq, Eq, Structural)]
pub struct Color {
    pub r: Fx,
    pub g: Fx,
    pub b: Fx,
}

/// Pure black.
pub open spec fn c_black() -> Color {
    Color { r: fx_int(0), g: fx_int(0), b: fx_int(0) }
}

/// Pure white.
pub open spec fn c_white() -> Color {
    Color { r: fx_int(1), g: fx_int(1), b: fx_int(1) }
}

/// Component-wise color sum.
pub open spec fn c_add(a: Color, b: Color) -> Color {
    Color { r: fx_add_s(a.r, b.r), g: fx_add_s(a.g, b.g), b: fx_add_s(a.b, b.b) }
}

/// The color divided component-wise by a scalar.
pub open spec fn c_div(a: Color, s: Fx) -> Color {
    Color { r: fx_div_s(a.r, s), g: fx_div_s(a.g, s), b: fx_div_s(a.b, s) }
}

/// The linear blend `a * t + b * (1 - t)`, per component.
pub open spec fn c_blend(a: Color, b: Color, t: Fx) -> Color {
    Color {
        r: fx_add_s(fx_mul_s(a.r, t), fx_mul_s(b.r, fx_sub_s(fx_int(1), t))),
        g: fx_add_s(fx_mul_s(a.g, t), fx_mul_s(b.g, fx_sub_s(fx_int(1), t))),
        b: fx_add_s(fx_mul_s(a.b, t), fx_mul_s(b.b, fx_sub_s(fx_int(1), t))),
    }
}

/// The component-wise product of two colors.
pub open spec fn c_modulate(a: Color, b: Color) -> Color {
    Color { r: fx_mul_s(a.r, b.r), g: fx_mul_s(a.g, b.g), b: fx_mul_s(a.b, b.b) }
}

/// Gamma correction: the square root of each component.
pub open spec fn c_gamma(a: Color) -> Color {
    Color { r: fx_sqrt_s(a.r), g: fx_sqrt_s(a.g), b: fx_sqrt_s(a.b) }
}

/// The 8-bit quantization of one channel: multiply by 255, round to nearest,
/// and clamp into the unsigned byte range.
pub open spec fn byte_of(c: int) -> int {
    if c <= 0 {
        0
    } else {
        let q = (c * 255 + 32768) / 65536;
        if q > 255 {
            255
        } else {
            q
        }
    }
}

/// Quantize one channel to a byte.
fn byte_q(v: Fx) -> (b: u8)
    ensures
        b as int == byte_of(v.raw as int),
{
    if v.raw <= 0 {
        0
    } else {
        let q: u128 = ((v.raw as u128) * 255 + 32768) / 65536;
        if q > 255 {
            255
        } else {
            q as u8
        }
    }
}

impl Color {
    /// The color with the given components.
    pub fn new(r: Fx, g: Fx, b: Fx) -> (c: Color)
        ensures
            c.r == r,
            c.g == g,
            c.b == b,
    {
        Color { r, g, b }
    }

    /// Pure black.
    pub fn black() -> (c: Color)
        ensures
            c == c_black(),
    {
        Color { r: Fx::zero(), g: Fx::zero(), b: Fx::zero() }
    }

    /// Pure white.
    pub fn white() -> (c: Color)
        ensures
            c == c_white(),
    {
        Color { r: Fx::one(), g: Fx::one(), b: Fx::one() }
    }

    /// Half gray: every component one half.
    pub fn gray() -> (c: Color)
        ensures
            c.r.raw == 32768,
            c.g.raw == 32768,
            c.b.raw == 32768,
    {
        Color { r: Fx { raw: 32768 }, g: Fx { raw: 32768 }, b: Fx { raw: 32768 } }
    }

    /// Green at three quarters intensity.
    pub fn green() -> (c: Color)
        ensures
            c.r.raw == 0,
            c.g.raw == 49152,
            c.b.raw == 0,
    {
        Color { r: Fx { raw: 0 }, g: Fx { raw: 49152 }, b: Fx { raw: 0 } }
    }

    /// The three channels quantized to bytes: each multiplied by 255, rounded
    /// to nearest, and clamped to the byte range.
    pub fn data(&self) -> (d: [u8; 3])
        ensures
            d[0] as int == byte_of(self.r.raw as int),
            d[1] as int == byte_of(self.g.raw as int),
            d[2] as int == byte_of(self.b.raw as int),
    {
        [byte_q(self.r), byte_q(self.g), byte_q(self.b)]
    }

    /// Component-wise sum.
    pub fn add(self, rhs: Color) -> (c: Color)
        ensures
            c == c_add(self, rhs),
    {
        Color { r: self.r.add(rhs.r), g: self.g.add(rhs.g), b: self.b.add(rhs.b) }
    }

    /// The color divided component-wise by a scalar, as when averaging
    /// samples.
    pub fn div(self, rhs: Fx) -> (c: Color)
        ensures
            c == c_div(self, rhs),
    {
        Color { r: self.r.div(rhs), g: self.g.div(rhs), b: self.b.div(rhs) }
    }

    /// Gamma correction: the square root of each component, applied to the
    /// averaged pixel color before quantization.
    pub fn gamma(self) -> (c: Color)
        ensures
            c == c_gamma(self),
    {
        Color { r: self.r.sqrt(), g: self.g.sqrt(), b: self.b.sqrt() }
    }
}

/// The linear blend of two colors: `a` weighted by `t` and `b` by `1 - t`.
pub fn blend(a: &Color, b: &Color, t: &Fx) -> (c: Color)
    ensures
        c == c_blend(*a, *b, *t),
{
    let w = Fx::from_int(1).sub(*t);
    Color { r: a.r.mul(*t).add(b.r.mul(w)), g: a.g.mul(*t).add(b.g.mul(w)), b: a.b.mul(*t).add(
        b.b.mul(w),
    ) }
}

/// The component-wise product of two colors: attenuation applied to radiance.
pub fn modulate(a: &Color, b: &Color) -> (c: Color)
    ensures
        c == c_modulate(*a, *b),
{
    Color { r: a.r.mul(b.r), g: a.g.mul(b.g), b: a.b.mul(b.b) }
}

} // verus!
