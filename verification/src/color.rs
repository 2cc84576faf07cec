//! Three-channel light intensities and their display-range conversion.
//!
//! Intensities are linear fixed-point values; they are clamped into `[0, 1]`
//! and quantized to bytes only at the image-synthesis boundary.

use vstd::prelude::*;

use crate::fixed::{
    fx_add, fx_max, fx_min, fx_mul, spec_add, spec_max, spec_min, spec_mul, spec_tdiv, FX_ONE,
};

verus! {

/// A linear RGB intensity; each channel is a fixed-point value.
#[derive(Clone, Copy, PartialEq, Eq, Structural, Debug)]
pub struct RgbIntensity {
    pub r: i64,
    pub g: i64,
    pub b: i64,
}

pub open spec fn spec_rgb(r: i64, g: i64, b: i64) -> RgbIntensity {
    RgbIntensity { r, g, b }
}

/// Componentwise sum.
pub open spec fn spec_cadd(a: RgbIntensity, b: RgbIntensity) -> RgbIntensity {
    RgbIntensity { r: spec_add(a.r, b.r), g: spec_add(a.g, b.g), b: spec_add(a.b, b.b) }
}

/// Componentwise product.
pub open spec fn spec_cmul(a: RgbIntensity, b: RgbIntensity) -> RgbIntensity {
    RgbIntensity { r: spec_mul(a.r, b.r), g: spec_mul(a.g, b.g), b: spec_mul(a.b, b.b) }
}

/// Scale every channel by one fixed-point factor.
pub open spec fn spec_cscale(a: RgbIntensity, f: i64) -> RgbIntensity {
    RgbIntensity { r: spec_mul(a.r, f), g: spec_mul(a.g, f), b: spec_mul(a.b, f) }
}

impl RgbIntensity {
    pub fn new(r: i64, g: i64, b: i64) -> (c: RgbIntensity)
        ensures
            c == spec_rgb(r, g, b),
    {
        RgbIntensity { r, g, b }
    }

    pub fn zeros() -> (c: RgbIntensity)
        ensures
            c == spec_rgb(0, 0, 0),
    {
        RgbIntensity { r: 0, g: 0, b: 0 }
    }

    /// The all-ones (white) intensity.
    pub fn white() -> (c: RgbIntensity)
        ensures
            c == spec_rgb(FX_ONE, FX_ONE, FX_ONE),
    {
        RgbIntensity { r: FX_ONE, g: FX_ONE, b: FX_ONE }
    }

    /// Grey intensity: the same value on each channel.
    pub fn splat(v: i64) -> (c: RgbIntensity)
        ensures
            c == spec_rgb(v, v, v),
    {
        RgbIntensity { r: v, g: v, b: v }
    }

    pub fn cadd(&self, o: &RgbIntensity) -> (c: RgbIntensity)
        ensures
            c == spec_cadd(*self, *o),
    {
        RgbIntensity { r: fx_add(self.r, o.r), g: fx_add(self.g, o.g), b: fx_add(self.b, o.b) }
    }

    pub fn component_mul(&self, o: &RgbIntensity) -> (c: RgbIntensity)
        ensures
            c == spec_cmul(*self, *o),
    {
        RgbIntensity { r: fx_mul(self.r, o.r), g: fx_mul(self.g, o.g), b: fx_mul(self.b, o.b) }
    }

    pub fn scale(&self, f: i64) -> (c: RgbIntensity)
        ensures
            c == spec_cscale(*self, f),
    {
        RgbIntensity { r: fx_mul(self.r, f), g: fx_mul(self.g, f), b: fx_mul(self.b, f) }
    }
}

/// One display channel: clamp into `[0, 1]` and quantize to `[0, 255]`,
/// rounding to the nearest byte.
pub open spec fn spec_to_byte(v: i64) -> u8 {
    ((spec_min(spec_max(v, 0), FX_ONE) * 255 + FX_ONE / 2) / (FX_ONE as int)) as u8
}

/// The display value of a byte channel, as a fixed-point intensity.
pub open spec fn spec_from_byte(v: u8) -> i64 {
    spec_tdiv(v * FX_ONE, 255) as i64
}

/// A linear intensity viewed as a display-range pixel.
#[derive(Clone, Copy, PartialEq, Eq, Structural, Debug)]
pub struct Rgb(pub RgbIntensity);

pub open spec fn spec_to_pixel(c: RgbIntensity) -> [u8; 3] {
    [spec_to_byte(c.r), spec_to_byte(c.g), spec_to_byte(c.b)]
}

pub open spec fn spec_from_pixel(v: [u8; 3]) -> RgbIntensity {
    RgbIntensity { r: spec_from_byte(v[0]), g: spec_from_byte(v[1]), b: spec_from_byte(v[2]) }
}

impl Rgb {
    fn convert(v: i64) -> (r: u8)
        ensures
            r == spec_to_byte(v),
    {
        let c: i64 = fx_min(fx_max(v, 0), FX_ONE);
        let p: i128 = ((c as i128) * 255 + (FX_ONE as i128) / 2) / (FX_ONE as i128);
        p as u8
    }

    /// Tone-map a linear intensity to an 8-bit RGB triple:
    /// `byte = round(255 * clamp(value, 0, 1))`.
    pub fn to_pixel(&self) -> (r: [u8; 3])
        ensures
            r == spec_to_pixel(self.0),
    {
        let px: [u8; 3] = [Self::convert(self.0.r), Self::convert(self.0.g), Self::convert(self.0.b)];
        assert(px =~= spec_to_pixel(self.0));
        px
    }

    /// The linear intensity of an 8-bit RGB triple.
    pub fn from_pixel(v: [u8; 3]) -> (r: RgbIntensity)
        ensures
            r == spec_from_pixel(v),
    {
        let r0: i64 = ((v[0] as i128) * (FX_ONE as i128) / 255) as i64;
        let g0: i64 = ((v[1] as i128) * (FX_ONE as i128) / 255) as i64;
        let b0: i64 = ((v[2] as i128) * (FX_ONE as i128) / 255) as i64;
        RgbIntensity { r: r0, g: g0, b: b0 }
    }
}


/// Every channel is nonnegative.
pub open spec fn rgb_nonneg(c: RgbIntensity) -> bool {
    c.r >= 0 && c.g >= 0 && c.b >= 0
}

/// Every channel lies in `[0, FX_MAX]`: nonnegative and saturated at the
/// representable maximum.
pub open spec fn rgb_in_range(c: RgbIntensity) -> bool {
    0 <= c.r <= crate::fixed::FX_MAX && 0 <= c.g <= crate::fixed::FX_MAX && 0 <= c.b
        <= crate::fixed::FX_MAX
}

/// Sums of nonnegative intensities are nonnegative and in range.
pub proof fn lemma_cadd_nonneg(a: RgbIntensity, b: RgbIntensity)
    requires
        rgb_nonneg(a),
        rgb_nonneg(b),
    ensures
        rgb_in_range(spec_cadd(a, b)),
{
    crate::fixed::lemma_add_range(a.r, b.r);
    crate::fixed::lemma_add_range(a.g, b.g);
    crate::fixed::lemma_add_range(a.b, b.b);
}

/// Componentwise products of nonnegative intensities are nonnegative and in
/// range.
pub proof fn lemma_cmul_nonneg(a: RgbIntensity, b: RgbIntensity)
    requires
        rgb_nonneg(a),
        rgb_nonneg(b),
    ensures
        rgb_in_range(spec_cmul(a, b)),
{
    crate::fixed::lemma_mul_range(a.r, b.r);
    crate::fixed::lemma_mul_range(a.g, b.g);
    crate::fixed::lemma_mul_range(a.b, b.b);
}

/// Nonnegative scalings of nonnegative intensities are nonnegative and in
/// range.
pub proof fn lemma_cscale_nonneg(a: RgbIntensity, f: i64)
    requires
        rgb_nonneg(a),
        f >= 0,
    ensures
        rgb_in_range(spec_cscale(a, f)),
{
    crate::fixed::lemma_mul_range(a.r, f);
    crate::fixed::lemma_mul_range(a.g, f);
    crate::fixed::lemma_mul_range(a.b, f);
}

} // verus!

