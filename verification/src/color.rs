//! 8-bit-per-channel RGB color with saturating arithmetic.
//!
//! Addition saturates at 255 per channel; scaling by a fixed-point factor
//! clamps each channel into `[0, 255]`; linear interpolation truncates, as
//! the machine division does.

use vstd::prelude::*;
use crate::fixed::{tdiv, FX_ONE};

verus! {

/// One channel of a saturating color addition: `min(255, a + b)`.
pub open spec fn sat_add_255(a: int, b: int) -> int {
    if a + b > 255 {
        255
    } else {
        a + b
    }
}

/// One channel scaled by a fixed-point factor, clamped into `[0, 255]`.
pub open spec fn scale_255(c: int, s: int) -> int {
    let p = tdiv(c * s, FX_ONE as int);
    if p < 0 {
        0
    } else if p > 255 {
        255
    } else {
        p
    }
}

/// One channel interpolated between `a` and `b` by a unit-interval factor
/// `t`, truncating.
pub open spec fn lerp_255(a: int, b: int, t: int) -> int {
    (a * (FX_ONE - t) + b * t) / (FX_ONE as int)
}

/// The channel-wise saturating sum of two colors.
pub open spec fn spec_color_add(a: Color, b: Color) -> Color {
    Color {
        r: sat_add_255(a.r as int, b.r as int) as u8,
        g: sat_add_255(a.g as int, b.g as int) as u8,
        b: sat_add_255(a.b as int, b.b as int) as u8,
    }
}

/// Every channel scaled by a fixed-point factor and clamped into `[0, 255]`.
pub open spec fn spec_color_scale(c: Color, s: int) -> Color {
    Color {
        r: scale_255(c.r as int, s) as u8,
        g: scale_255(c.g as int, s) as u8,
        b: scale_255(c.b as int, s) as u8,
    }
}

/// A color packed as `0xRRGGBB`.
pub open spec fn spec_color_hex(c: Color) -> u32 {
    (c.r * 0x10000 + c.g * 0x100 + c.b) as u32
}

/// An 8-bit-per-channel RGB value.
#[derive(Clone, Copy, Debug, PartialEq, Eq, Structural)]
pub struct Color {
    pub r: u8,
    pub g: u8,
    pub b: u8,
}

impl Color {
    pub fn new(r: u8, g: u8, b: u8) -> (c: Color)
        ensures
            c == (Color { r, g, b }),
    {
        Color { r, g, b }
    }

    /// The color packed in `hex` as `0xRRGGBB`.
    pub fn from_hex(hex: u32) -> (c: Color)
        ensures
            c.r == (hex >> 16) & 0xFF,
            c.g == (hex >> 8) & 0xFF,
            c.b == hex & 0xFF,
    {
        proof {
            assert((hex >> 16) & 0xFF < 256 && (hex >> 8) & 0xFF < 256 && hex & 0xFF < 256)
                by (bit_vector);
        }
        let r = ((hex >> 16) & 0xFF) as u8;
        let g = ((hex >> 8) & 0xFF) as u8;
        let b = (hex & 0xFF) as u8;
        Color { r, g, b }
    }

    /// This color packed as `0xRRGGBB`.
    pub fn to_hex(&self) -> (hex: u32)
        ensures
            hex == ((self.r as u32) << 16) | ((self.g as u32) << 8) | (self.b as u32),
            hex == self.r * 0x10000 + self.g * 0x100 + self.b,
            hex == spec_color_hex(*self),
    {
        let r = self.r;
        let g = self.g;
        let b = self.b;
        proof {
            assert(((r as u32) << 16) | ((g as u32) << 8) | (b as u32) == r as u32 * 0x10000
                + g as u32 * 0x100 + b as u32) by (bit_vector);
        }
        ((r as u32) << 16) | ((g as u32) << 8) | (b as u32)
    }

    /// The blend of this color toward `otro` by the unit-interval factor `t`,
    /// channel by channel, truncating.
    pub fn lerp(&self, otro: &Color, t: i64) -> (c: Color)
        requires
            0 <= t <= FX_ONE,
        ensures
            c.r == lerp_255(self.r as int, otro.r as int, t as int),
            c.g == lerp_255(self.g as int, otro.g as int, t as int),
            c.b == lerp_255(self.b as int, otro.b as int, t as int),
    {
        Color {
            r: lerp_channel(self.r, otro.r, t),
            g: lerp_channel(self.g, otro.g, t),
            b: lerp_channel(self.b, otro.b, t),
        }
    }

    pub fn r(&self) -> (v: u8)
        ensures
            v == self.r,
    {
        self.r
    }

    pub fn g(&self) -> (v: u8)
        ensures
            v == self.g,
    {
        self.g
    }

    pub fn b(&self) -> (v: u8)
        ensures
            v == self.b,
    {
        self.b
    }

    /// The channel-wise saturating sum of two colors.
    pub fn add(self, other: Color) -> (c: Color)
        ensures
            c == spec_color_add(self, other),
            c.r == sat_add_255(self.r as int, other.r as int),
            c.g == sat_add_255(self.g as int, other.g as int),
            c.b == sat_add_255(self.b as int, other.b as int),
    {
        Color {
            r: sat_add_channel(self.r, other.r),
            g: sat_add_channel(self.g, other.g),
            b: sat_add_channel(self.b, other.b),
        }
    }

    /// Each channel scaled by the fixed-point factor `s` and clamped into
    /// `[0, 255]`.
    pub fn mul(self, s: i64) -> (c: Color)
        ensures
            c == spec_color_scale(self, s as int),
            c.r == scale_255(self.r as int, s as int),
            c.g == scale_255(self.g as int, s as int),
            c.b == scale_255(self.b as int, s as int),
    {
        Color {
            r: scale_channel(self.r, s),
            g: scale_channel(self.g, s),
            b: scale_channel(self.b, s),
        }
    }
}

fn sat_add_channel(a: u8, b: u8) -> (r: u8)
    ensures
        r == sat_add_255(a as int, b as int),
{
    let s: u16 = a as u16 + b as u16;
    if s > 255 {
        255
    } else {
        s as u8
    }
}

fn scale_channel(c: u8, s: i64) -> (r: u8)
    ensures
        r == scale_255(c as int, s as int),
{
    proof {
        assert(-0x8000000000000000000000 <= (c as int) * (s as int)
            <= 0x8000000000000000000000) by (nonlinear_arith)
            requires
                0 <= c < 256,
                -0x8000000000000000 <= s < 0x8000000000000000;
    }
    let p: i128 = (c as i128) * (s as i128);
    if p <= 0 {
        0
    } else {
        let q: u128 = (p as u128) / (FX_ONE as u128);
        if q > 255 {
            255
        } else {
            q as u8
        }
    }
}

fn lerp_channel(a: u8, b: u8, t: i64) -> (r: u8)
    requires
        0 <= t <= FX_ONE,
    ensures
        r == lerp_255(a as int, b as int, t as int),
{
    proof {
        assert(0 <= (a as int) * (0x100000 - t as int) + (b as int) * (t as int)
            <= 255 * 0x100000) by (nonlinear_arith)
            requires
                0 <= t <= 0x100000,
                0 <= a < 256,
                0 <= b < 256;
    }
    let blend: u64 = (a as u64) * ((FX_ONE - t) as u64) + (b as u64) * (t as u64);
    let q: u64 = blend / (FX_ONE as u64);
    assert(blend as int == (a as int) * (0x100000 - t as int) + (b as int) * (t as int));
    assert(blend <= 255 * 0x100000);
    assert(q == blend as int / 0x100000);
    q as u8
}

/// The blend of `inicio` toward `fin` by the unit-interval factor `t`,
/// channel by channel, truncating.
pub fn transicion_color(inicio: &Color, fin: &Color, t: i64) -> (c: Color)
    requires
        0 <= t <= FX_ONE,
    ensures
        c.r == lerp_255(inicio.r as int, fin.r as int, t as int),
        c.g == lerp_255(inicio.g as int, fin.g as int, t as int),
        c.b == lerp_255(inicio.b as int, fin.b as int, t as int),
{
    inicio.lerp(fin, t)
}

/// Interpolation by `0` returns the first color and interpolation by the
/// full unit factor returns the second, exactly, on every channel.
pub proof fn lemma_lerp_ends(c1: Color, c2: Color)
    ensures
        lerp_255(c1.r as int, c2.r as int, 0) == c1.r,
        lerp_255(c1.g as int, c2.g as int, 0) == c1.g,
        lerp_255(c1.b as int, c2.b as int, 0) == c1.b,
        lerp_255(c1.r as int, c2.r as int, FX_ONE as int) == c2.r,
        lerp_255(c1.g as int, c2.g as int, FX_ONE as int) == c2.g,
        lerp_255(c1.b as int, c2.b as int, FX_ONE as int) == c2.b,
{
    lemma_unit_div(c1.r as int);
    lemma_unit_div(c1.g as int);
    lemma_unit_div(c1.b as int);
    lemma_unit_div(c2.r as int);
    lemma_unit_div(c2.g as int);
    lemma_unit_div(c2.b as int);
}

proof fn lemma_unit_div(a: int)
    ensures
        a * (FX_ONE as int) / (FX_ONE as int) == a,
{
    assert(a * 0x100000 / 0x100000 == a) by (nonlinear_arith);
}

} // verus!
