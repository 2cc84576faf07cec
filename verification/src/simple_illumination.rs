//! Local/direct shading: one implicit light, no shadows, no bounces.

use vstd::prelude::*;

use crate::color::{spec_rgb, RgbIntensity};
use crate::fixed::{fx_add, fx_max, fx_mul, fx_powi, spec_add, spec_max, spec_mul, spec_powi,
    FX_ONE};
use crate::material::Material;
use crate::model::Model;
use crate::ray::Ray;
use crate::renderer::Renderer;
use crate::scene::{spec_scene_hit, Scene};
use crate::vector::{spec_dot, spec_vadd, spec_vneg, spec_vnormalize, spec_vscale, spec_vsub, Vector};

verus! {

/// A non-physical local-illumination preview renderer: on a hit it combines
/// a diffuse term driven by the angle to the surface and a specular term
/// driven by one implicit light (its direction mirrored about the surface
/// normal against the view direction); on a miss it returns the background
/// color.
#[derive(Clone, Debug)]
pub struct SimpleIllumination<M: Model> {
    pub scene: Scene<M>,
    pub background: Material,
    pub light: Vector,
    pub light_color: RgbIntensity,
}

/// One channel of the local-shading sum:
/// `color * roughness * cos_diffusive + light * metallic * cos_reflection^k`.
pub open spec fn spec_simple_channel(
    color: i64,
    roughness: i64,
    cd: i64,
    light: i64,
    metallic: i64,
    cr: i64,
) -> i64 {
    spec_add(spec_mul(spec_mul(color, roughness), cd), spec_mul(spec_mul(light, metallic), cr))
}

/// The full local-shading evaluation of one ray.
pub open spec fn spec_simple_cast<M: Model>(s: SimpleIllumination<M>, ray: Ray) -> RgbIntensity {
    match spec_scene_hit(s.scene.objects@, ray) {
        None => s.background.color,
        Some(hit) => {
            let lv = spec_vnormalize(spec_vsub(s.light, hit.pos));
            let reflected = spec_vadd(
                lv,
                spec_vscale(hit.normal.v, crate::fixed::spec_muln(spec_dot(lv, hit.normal.v), -2i64)),
            );
            let cr = spec_powi(
                spec_max(spec_dot(reflected, ray.direction.v), 0),
                hit.material.k as nat,
            );
            let cd = spec_max(spec_dot(ray.direction.v, spec_vneg(hit.normal.v)), 0);
            RgbIntensity {
                r: spec_simple_channel(
                    hit.material.color.r,
                    hit.material.roughness.r,
                    cd,
                    s.light_color.r,
                    hit.material.metallic.r,
                    cr,
                ),
                g: spec_simple_channel(
                    hit.material.color.g,
                    hit.material.roughness.g,
                    cd,
                    s.light_color.g,
                    hit.material.metallic.g,
                    cr,
                ),
                b: spec_simple_channel(
                    hit.material.color.b,
                    hit.material.roughness.b,
                    cd,
                    s.light_color.b,
                    hit.material.metallic.b,
                    cr,
                ),
            }
        },
    }
}

impl<M: Model> SimpleIllumination<M> {
    /// A preview renderer over `scene` with the default background material,
    /// a white implicit light at `(10, -10, 10)`.
    pub fn new(scene: Scene<M>) -> (s: SimpleIllumination<M>)
        ensures
            s.scene == scene,
            s.background == crate::material::spec_material_default(),
            s.light == (Vector { x: 42949672960i64, y: -42949672960i64, z: 42949672960i64, w: 0 }),
            s.light_color == spec_rgb(FX_ONE, FX_ONE, FX_ONE),
    {
        SimpleIllumination {
            scene,
            background: Material::default(),
            light: Vector::new(10 * FX_ONE, -10 * FX_ONE, 10 * FX_ONE, 0),
            light_color: RgbIntensity::white(),
        }
    }
}

impl<M: Model> Renderer for SimpleIllumination<M> {
    open spec fn cast_spec(&self, ray: Ray) -> RgbIntensity {
        spec_simple_cast(*self, ray)
    }

    fn cast(&self, ray: &Ray) -> (c: RgbIntensity)
        ensures
            c == self.cast_spec(*ray),
    {
        match self.scene.intersect(ray) {
            None => self.background.color,
            Some(hit) => {
                let lv: Vector = self.light.minus(&hit.pos).normalize();
                let reflected: Vector = lv.plus(
                    &hit.normal.v.scale(crate::fixed::fx_muln(lv.dot(&hit.normal.v), -2)),
                );
                let cr: i64 = fx_powi(fx_max(reflected.dot(&ray.direction.v), 0), hit.material.k);
                let cd: i64 = fx_max(ray.direction.v.dot(&hit.normal.v.neg()), 0);
                RgbIntensity {
                    r: fx_add(
                        fx_mul(fx_mul(hit.material.color.r, hit.material.roughness.r), cd),
                        fx_mul(fx_mul(self.light_color.r, hit.material.metallic.r), cr),
                    ),
                    g: fx_add(
                        fx_mul(fx_mul(hit.material.color.g, hit.material.roughness.g), cd),
                        fx_mul(fx_mul(self.light_color.g, hit.material.metallic.g), cr),
                    ),
                    b: fx_add(
                        fx_mul(fx_mul(hit.material.color.b, hit.material.roughness.b), cd),
                        fx_mul(fx_mul(self.light_color.b, hit.material.metallic.b), cr),
                    ),
                }
            },
        }
    }
}


/// Energy non-negativity of the local-shading preview: when every material
/// the scene can report, the implicit light, and the background color carry
/// only nonnegative channels, the returned intensity is nonnegative on each
/// channel and saturates at the representable maximum.
pub proof fn lemma_simple_cast_energy<M: Model>(s: SimpleIllumination<M>, ray: Ray)
    requires
        crate::global_illumination::scene_materials_nonneg(s.scene.objects@),
        crate::color::rgb_in_range(s.background.color),
        crate::color::rgb_nonneg(s.light_color),
    ensures
        crate::color::rgb_in_range(spec_simple_cast(s, ray)),
{
    match spec_scene_hit(s.scene.objects@, ray) {
        None => {},
        Some(hit) => {
            let lv = spec_vnormalize(spec_vsub(s.light, hit.pos));
            let reflected = spec_vadd(
                lv,
                spec_vscale(
                    hit.normal.v,
                    crate::fixed::spec_muln(spec_dot(lv, hit.normal.v), -2i64),
                ),
            );
            let cr_base = spec_max(spec_dot(reflected, ray.direction.v), 0);
            crate::fixed::lemma_powi_nonneg(cr_base, hit.material.k as nat);
            let cr = spec_powi(cr_base, hit.material.k as nat);
            let cd = spec_max(spec_dot(ray.direction.v, spec_vneg(hit.normal.v)), 0);
            lemma_simple_channel_range(hit.material.color.r, hit.material.roughness.r, cd,
                s.light_color.r, hit.material.metallic.r, cr);
            lemma_simple_channel_range(hit.material.color.g, hit.material.roughness.g, cd,
                s.light_color.g, hit.material.metallic.g, cr);
            lemma_simple_channel_range(hit.material.color.b, hit.material.roughness.b, cd,
                s.light_color.b, hit.material.metallic.b, cr);
        },
    }
}

proof fn lemma_simple_channel_range(
    color: i64,
    roughness: i64,
    cd: i64,
    light: i64,
    metallic: i64,
    cr: i64,
)
    requires
        color >= 0,
        roughness >= 0,
        cd >= 0,
        light >= 0,
        metallic >= 0,
        cr >= 0,
    ensures
        0 <= spec_simple_channel(color, roughness, cd, light, metallic, cr)
            <= crate::fixed::FX_MAX,
{
    crate::fixed::lemma_mul_range(color, roughness);
    crate::fixed::lemma_mul_range(spec_mul(color, roughness), cd);
    crate::fixed::lemma_mul_range(light, metallic);
    crate::fixed::lemma_mul_range(spec_mul(light, metallic), cr);
    crate::fixed::lemma_add_range(
        spec_mul(spec_mul(color, roughness), cd),
        spec_mul(spec_mul(light, metallic), cr),
    );
}

} // verus!

