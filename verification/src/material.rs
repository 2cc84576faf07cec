//! Per-surface reflectance parameters.

use vstd::prelude::*;

use crate::color::{spec_rgb, RgbIntensity};
use crate::fixed::FX_ONE;

verus! {

/// Raw fixed-point value of 0.1.
pub const FX_TENTH: i64 = 429496730;

/// Raw fixed-point value of 0.2.
pub const FX_FIFTH: i64 = 858993459;

/// Raw fixed-point value of 0.5.
pub const FX_HALF: i64 = 2147483648;

/// Raw fixed-point value of 0.7.
pub const FX_SEVEN_TENTHS: i64 = 3006477107;

/// Raw fixed-point value of 0.8.
pub const FX_EIGHT_TENTHS: i64 = 3435973837;

/// An immutable surface description. Channels are linear intensities; `k` is
/// the specular falloff exponent; `ior` the refractive index; `transmission`
/// gates whether refraction is attempted, with `transmittance` weighting what
/// passes through.
#[derive(Clone, Copy, PartialEq, Eq, Structural, Debug)]
pub struct Material {
    pub color: RgbIntensity,
    pub emissivity: RgbIntensity,
    pub metallic: RgbIntensity,
    pub roughness: RgbIntensity,
    pub ambient: RgbIntensity,
    pub k: u32,
    pub ior: i64,
    pub transmission: bool,
    pub transmittance: RgbIntensity,
}

/// A material with every channel zero, unit refractive index, and a unit
/// specular exponent; the base other constructors start from.
pub open spec fn spec_material_base() -> Material {
    Material {
        color: spec_rgb(0, 0, 0),
        emissivity: spec_rgb(0, 0, 0),
        metallic: spec_rgb(0, 0, 0),
        roughness: spec_rgb(0, 0, 0),
        ambient: spec_rgb(0, 0, 0),
        k: 1,
        ior: FX_ONE,
        transmission: false,
        transmittance: spec_rgb(0, 0, 0),
    }
}

impl Material {
    /// The all-zero base material (see [`spec_material_base`]).
    pub fn base() -> (m: Material)
        ensures
            m == spec_material_base(),
    {
        Material {
            color: RgbIntensity::zeros(),
            emissivity: RgbIntensity::zeros(),
            metallic: RgbIntensity::zeros(),
            roughness: RgbIntensity::zeros(),
            ambient: RgbIntensity::zeros(),
            k: 1,
            ior: FX_ONE,
            transmission: false,
            transmittance: RgbIntensity::zeros(),
        }
    }

    /// A polished metal: bluish base color, fully metallic, sharp highlight.
    pub fn metallic() -> (m: Material)
        ensures
            m == (Material {
                color: spec_rgb(FX_HALF, FX_HALF, FX_SEVEN_TENTHS),
                metallic: spec_rgb(FX_ONE, FX_ONE, FX_ONE),
                k: 10,
                ..spec_material_base()
            }),
    {
        let mut m: Material = Material::base();
        m.color = RgbIntensity::new(FX_HALF, FX_HALF, FX_SEVEN_TENTHS);
        m.metallic = RgbIntensity::white();
        m.k = 10;
        m
    }

    /// A matte stone: bright diffuse surface with a small specular part.
    pub fn marble() -> (m: Material)
        ensures
            m == (Material {
                color: spec_rgb(FX_EIGHT_TENTHS, FX_EIGHT_TENTHS, FX_EIGHT_TENTHS),
                roughness: spec_rgb(FX_SEVEN_TENTHS, FX_SEVEN_TENTHS, FX_SEVEN_TENTHS),
                ambient: spec_rgb(FX_FIFTH, FX_FIFTH, FX_FIFTH),
                metallic: spec_rgb(FX_TENTH, FX_TENTH, FX_TENTH),
                ..spec_material_base()
            }),
    {
        let mut m: Material = Material::base();
        m.color = RgbIntensity::splat(FX_EIGHT_TENTHS);
        m.roughness = RgbIntensity::splat(FX_SEVEN_TENTHS);
        m.ambient = RgbIntensity::splat(FX_FIFTH);
        m.metallic = RgbIntensity::splat(FX_TENTH);
        m
    }
}

/// The default material: white, weakly metallic, lightly diffuse.
pub open spec fn spec_material_default() -> Material {
    Material {
        color: spec_rgb(FX_ONE, FX_ONE, FX_ONE),
        metallic: spec_rgb(1288490189, 1288490189, 1288490189),
        roughness: spec_rgb(FX_FIFTH, FX_FIFTH, FX_FIFTH),
        k: 0,
        ..spec_material_base()
    }
}

impl Default for Material {
    /// A white, weakly metallic, lightly diffuse surface.
    fn default() -> (m: Material)
        ensures
            m == spec_material_default(),
    {
        let mut m: Material = Material::base();
        m.color = RgbIntensity::white();
        m.metallic = RgbIntensity::splat(1288490189);
        m.roughness = RgbIntensity::splat(FX_FIFTH);
        m.k = 0;
        m
    }
}


/// Every intensity channel of the material is nonnegative.
pub open spec fn material_nonneg(m: Material) -> bool {
    &&& crate::color::rgb_nonneg(m.color)
    &&& crate::color::rgb_nonneg(m.emissivity)
    &&& crate::color::rgb_nonneg(m.metallic)
    &&& crate::color::rgb_nonneg(m.roughness)
    &&& crate::color::rgb_nonneg(m.ambient)
    &&& crate::color::rgb_nonneg(m.transmittance)
}

} // verus!

