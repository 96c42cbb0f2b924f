//! Colors: three fixed-point channels, unbounded during accumulation and
//! clamped to the displayable range only on conversion to output bytes.

use vstd::prelude::*;
use crate::fixed::{fadd, fmul, fdiv, fsqrt, FX_ONE};
use crate::fixed::{fx_add, fx_mul, fx_div, fx_sqrt};
use crate::vector3d::fblend;
use crate::vector3d::blend;

verus! {

/// A color with fixed-point red, green and blue channels.
#[derive(Clone, Copy, Debug, PartialEq, Eq, Structural)]
pub struct Color {
    pub r: i64,
    pub g: i64,
    pub b: i64,
}

/// Black: all channels zero.
pub open spec fn cblack() -> Color {
    Color { r: 0, g: 0, b: 0 }
}

/// Channelwise sum.
pub open spec fn cadd(a: Color, b: Color) -> Color {
    Color {
        r: fadd(a.r as int, b.r as int) as i64,
        g: fadd(a.g as int, b.g as int) as i64,
        b: fadd(a.b as int, b.b as int) as i64,
    }
}

/// Channelwise product of two colors.
pub open spec fn cmul(a: Color, b: Color) -> Color {
    Color {
        r: fmul(a.r as int, b.r as int) as i64,
        g: fmul(a.g as int, b.g as int) as i64,
        b: fmul(a.b as int, b.b as int) as i64,
    }
}

/// Scaling all channels by a fixed-point scalar.
pub open spec fn cscale(a: Color, f: int) -> Color {
    Color {
        r: fmul(a.r as int, f) as i64,
        g: fmul(a.g as int, f) as i64,
        b: fmul(a.b as int, f) as i64,
    }
}

/// Dividing all channels by a fixed-point scalar.
pub open spec fn cdiv(a: Color, f: int) -> Color {
    Color {
        r: fdiv(a.r as int, f) as i64,
        g: fdiv(a.g as int, f) as i64,
        b: fdiv(a.b as int, f) as i64,
    }
}

/// Channelwise square root (gamma correction).
pub open spec fn csqrt(a: Color) -> Color {
    Color {
        r: fsqrt(a.r as int) as i64,
        g: fsqrt(a.g as int) as i64,
        b: fsqrt(a.b as int) as i64,
    }
}

/// Linear interpolation of colors: `col1 * f + col2 * (1 - f)` channelwise.
pub open spec fn cblend(col1: Color, col2: Color, factor_col1: int) -> Color {
    Color {
        r: fblend(col1.r as int, col2.r as int, factor_col1) as i64,
        g: fblend(col1.g as int, col2.g as int, factor_col1) as i64,
        b: fblend(col1.b as int, col2.b as int, factor_col1) as i64,
    }
}

/// One channel clamped to `[0, 1]` and scaled to an 8-bit display value.
pub open spec fn channel_byte(c: int) -> int {
    let clamped = if c < 0 {
        0
    } else if c > FX_ONE as int {
        FX_ONE as int
    } else {
        c
    };
    clamped * 255 / (FX_ONE as int)
}

impl Color {
    /// Channelwise square root, the tone-mapping step before display.
    pub fn sqrt_gamma_correct(&self) -> (r: Color)
        ensures
            r == csqrt(*self),
    {
        Color { r: fx_sqrt(self.r), g: fx_sqrt(self.g), b: fx_sqrt(self.b) }
    }

    /// The three channels clamped to the displayable range and scaled to
    /// 8-bit values, in red, green, blue order.
    pub fn to_canvas_color(&self) -> (r: (u8, u8, u8))
        ensures
            r.0 as int == channel_byte(self.r as int),
            r.1 as int == channel_byte(self.g as int),
            r.2 as int == channel_byte(self.b as int),
    {
        (clamp_channel(self.r), clamp_channel(self.g), clamp_channel(self.b))
    }

    /// Channelwise sum.
    pub fn add(&self, other: &Color) -> (r: Color)
        ensures
            r == cadd(*self, *other),
    {
        Color {
            r: fx_add(self.r, other.r),
            g: fx_add(self.g, other.g),
            b: fx_add(self.b, other.b),
        }
    }

    /// Channelwise product with another color.
    pub fn mul(&self, other: &Color) -> (r: Color)
        ensures
            r == cmul(*self, *other),
    {
        Color {
            r: fx_mul(self.r, other.r),
            g: fx_mul(self.g, other.g),
            b: fx_mul(self.b, other.b),
        }
    }

    /// Scaling all channels by a fixed-point scalar.
    pub fn scale(&self, f: i64) -> (r: Color)
        ensures
            r == cscale(*self, f as int),
    {
        Color { r: fx_mul(self.r, f), g: fx_mul(self.g, f), b: fx_mul(self.b, f) }
    }

    /// Dividing all channels by a fixed-point scalar.
    pub fn div(&self, f: i64) -> (r: Color)
        ensures
            r == cdiv(*self, f as int),
    {
        Color { r: fx_div(self.r, f), g: fx_div(self.g, f), b: fx_div(self.b, f) }
    }
}

fn clamp_channel(c: i64) -> (r: u8)
    ensures
        r as int == channel_byte(c as int),
{
    let clamped: i64 = if c < 0 {
        0
    } else if c > FX_ONE {
        FX_ONE
    } else {
        c
    };
    (clamped * 255 / 1_000_000) as u8
}

/// Black: all channels zero.
pub fn black() -> (r: Color)
    ensures
        r == cblack(),
{
    Color { r: 0, g: 0, b: 0 }
}

/// Linear interpolation of colors: `col1 * f + col2 * (1 - f)` channelwise.
pub fn blend_colors(col1: &Color, col2: &Color, factor_col1: i64) -> (r: Color)
    ensures
        r == cblend(*col1, *col2, factor_col1 as int),
{
    Color {
        r: blend(col1.r, col2.r, factor_col1),
        g: blend(col1.g, col2.g, factor_col1),
        b: blend(col1.b, col2.b, factor_col1),
    }
}

} // verus!
