//! Surface materials and nearest-neighbor texture sampling.
//!
//! A material wraps a flat diffuse color, a Phong exponent, a two-component
//! reflectivity weight (`albedo[0]` diffuse, `albedo[1]` specular), an
//! optional shared texture and an optional emissive color. When a texture is
//! present it overrides the diffuse color per pixel through UV sampling; the
//! stored diffuse color remains as the fallback and as the base of the
//! diffuse lighting term.

use vstd::prelude::*;
use crate::color::Color;
use crate::fixed::{fx_clamp01, spec_clamp01, FX_ONE};
use crate::texture::{image_height, image_rgb, image_width, Texture};

verus! {

/// A surface's reaction to light.
pub struct Material {
    pub diffuse: Color,
    pub specular: i64,
    pub albedo: [i64; 2],
    pub textura: Option<Texture>,
    pub emisividad_color: Option<Color>,
}

/// The nearest-neighbor texel index for a unit-interval coordinate over
/// `extent` texels: `coord * (extent - 1)` truncated, kept below `extent`.
pub open spec fn texel_index(coord: int, extent: int) -> int {
    let i = coord * (extent - 1) / (FX_ONE as int);
    if i > extent - 1 {
        extent - 1
    } else {
        i
    }
}

/// The color a material shows at surface coordinates `(u, v)`: the sampled
/// texel when a texture with pixels is present, the flat diffuse color
/// otherwise. Both coordinates are clamped into the unit interval and `v`
/// is flipped, the texture's origin being top-left while the UV origin is
/// bottom-left.
pub open spec fn spec_diffuse_color(m: Material, u: int, v: int) -> Color {
    match m.textura {
        Some(img) => {
            let w = image_width(img) as int;
            let h = image_height(img) as int;
            if w == 0 || h == 0 {
                m.diffuse
            } else {
                let x = texel_index(spec_clamp01(u), w);
                let y = texel_index(FX_ONE - spec_clamp01(v), h);
                let p = image_rgb(img)[(x, y)];
                Color { r: p.0, g: p.1, b: p.2 }
            }
        },
        None => m.diffuse,
    }
}

impl Material {
    pub fn new(
        diffuse: Color,
        specular: i64,
        albedo: [i64; 2],
        textura: Option<Texture>,
        emisividad_color: Option<Color>,
    ) -> (m: Material)
        ensures
            m == (Material { diffuse, specular, albedo, textura, emisividad_color }),
    {
        Material { diffuse, specular, albedo, textura, emisividad_color }
    }

    /// The inert material: black, unlit, untextured.
    pub fn black() -> (m: Material)
        ensures
            m.diffuse == (Color { r: 0u8, g: 0u8, b: 0u8 }),
            m.specular == 0,
            m.albedo == [0i64, 0i64],
            m.textura is None,
            m.emisividad_color is None,
    {
        Material {
            diffuse: Color::new(0, 0, 0),
            specular: 0,
            albedo: [0, 0],
            textura: None,
            emisividad_color: None,
        }
    }

    /// A copy of this material; the texture handle is shared, not copied.
    pub fn clone(&self) -> (m: Material)
        ensures
            m == *self,
    {
        let textura = match &self.textura {
            Some(t) => Some(t.clone()),
            None => None,
        };
        Material {
            diffuse: self.diffuse,
            specular: self.specular,
            albedo: self.albedo,
            textura,
            emisividad_color: self.emisividad_color,
        }
    }

    /// The color this material shows at surface coordinates `(u, v)`.
    pub fn get_diffuse_color(&self, u: i64, v: i64) -> (c: Color)
        ensures
            c == spec_diffuse_color(*self, u as int, v as int),
    {
        match &self.textura {
            Some(t) => {
                let w = t.width();
                let h = t.height();
                if w == 0 || h == 0 {
                    self.diffuse
                } else {
                    let uc = fx_clamp01(u);
                    let vc = FX_ONE - fx_clamp01(v);
                    let x = texel(uc, w);
                    let y = texel(vc, h);
                    let p = t.pixel(x, y);
                    Color { r: p.0, g: p.1, b: p.2 }
                }
            },
            None => self.diffuse,
        }
    }
}

/// Sampling flips `v` once, so a `v` flipped at the call site addresses the
/// unflipped row: for a coordinate that lands exactly on a texel row, the
/// row sampled for `1 - v` is the mirror, about the texture's middle, of
/// the row sampled for `v`.
pub proof fn lemma_sample_row_flip(v: int, h: int)
    requires
        0 <= v <= FX_ONE,
        1 <= h,
        (v * (h - 1)) % (FX_ONE as int) == 0,
    ensures
        texel_index(FX_ONE - (FX_ONE - v), h) == texel_index(v, h),
        texel_index(FX_ONE - v, h) == h - 1 - texel_index(v, h),
{
    let s = FX_ONE as int;
    let q = v * (h - 1) / s;
    assert(v * (h - 1) == q * s && 0 <= q <= h - 1 && (s - v) * (h - 1) == (h - 1 - q) * s)
        by (nonlinear_arith)
        requires
            0 <= v <= s,
            1 <= h,
            s == 0x100000,
            (v * (h - 1)) % s == 0,
            q == v * (h - 1) / s;
    assert(q * s / s == q && (h - 1 - q) * s / s == h - 1 - q) by (nonlinear_arith)
        requires
            s == 0x100000;
}

/// The nearest-neighbor texel index for the clamped coordinate `coord`.
fn texel(coord: i64, extent: u32) -> (i: u32)
    requires
        0 <= coord <= FX_ONE,
        extent >= 1,
    ensures
        i == texel_index(coord as int, extent as int),
        i < extent,
{
    proof {
        assert(0 <= (coord as int) * (extent - 1) <= 0x100000 * ((extent - 1) as int)
            && (coord as int) * (extent - 1) / 0x100000 <= extent - 1) by (nonlinear_arith)
            requires
                0 <= coord <= 0x100000,
                1 <= extent < 0x100000000;
    }
    let raw: u64 = (coord as u64) * ((extent - 1) as u64) / (FX_ONE as u64);
    let i: u64 = if raw > (extent - 1) as u64 {
        (extent - 1) as u64
    } else {
        raw
    };
    i as u32
}

} // verus!
