//! Whitted-style recursive ray tracing with point lights, shadow rays, an
//! ambient term, mirror reflection and Snell refraction.

use vstd::prelude::*;

use crate::color::{spec_cadd, spec_cmul, spec_cscale, spec_rgb, RgbIntensity};
use crate::fixed::{fx_add, fx_div, fx_max, fx_mul, fx_powi, fx_sub, spec_add, spec_div, spec_max,
    spec_mul, spec_powi, spec_sub, FX_ONE};
use crate::hit::Hit;
use crate::material::{FX_EIGHT_TENTHS, FX_SEVEN_TENTHS, FX_TENTH};
use crate::model::Model;
use crate::ray::{spec_reflected_dir, spec_refracted_dir, Ray};
use crate::renderer::Renderer;
use crate::scene::{spec_scene_hit, Scene};
use crate::vector::{spec_dot, spec_unit_normalize, spec_vadd, spec_vscale, spec_vsub, Unit,
    Vector};

verus! {

/// Offset applied when restarting a ray at a surface, so it does not
/// immediately re-intersect the surface it just left (about 1e-6).
pub const GI_EPSILON: i64 = 4295;

/// Bound on the number of surfaces a single shadow ray walks through; a walk
/// that is still inside geometry after this many steps counts as fully
/// occluded.
pub const SHADOW_FUEL: u32 = 32;

/// A point light source.
#[derive(Clone, Copy, PartialEq, Eq, Structural, Debug)]
pub struct PointLight {
    pub position: Vector,
    pub color: RgbIntensity,
    pub intensity: i64,
}

impl PointLight {
    pub fn new(position: Vector, intensity: i64, color: RgbIntensity) -> (l: PointLight)
        ensures
            l == (PointLight { position, color, intensity }),
    {
        PointLight { position, color, intensity }
    }
}

/// The pluggable ambient/background evaluator.
pub trait Ambient: Sized {
    /// The ambient intensity for a ray, given whether the ray hit anything.
    spec fn evaluate_spec(&self, ray: Ray, hit: Option<Hit>) -> RgbIntensity;

    fn evaluate(&self, ray: &Ray, hit: &Option<Hit>) -> (c: RgbIntensity)
        ensures
            c == self.evaluate_spec(*ray, *hit),
    ;
}

/// A two-tone sky/ground ambient term keyed on the vertical sign of the ray
/// direction (flipped at a hit, where the relevant direction is the one the
/// light came from).
#[derive(Clone, Copy, PartialEq, Eq, Structural, Debug)]
pub struct WithSky {}

impl Ambient for WithSky {
    open spec fn evaluate_spec(&self, ray: Ray, hit: Option<Hit>) -> RgbIntensity {
        let toward_ground = if hit is Some {
            ray.direction.v.z > 0
        } else {
            ray.direction.v.z < 0
        };
        if toward_ground {
            spec_rgb(FX_TENTH, FX_TENTH, FX_TENTH)
        } else {
            spec_rgb(FX_SEVEN_TENTHS, FX_EIGHT_TENTHS, FX_ONE)
        }
    }

    fn evaluate(&self, ray: &Ray, hit: &Option<Hit>) -> (c: RgbIntensity)
        ensures
            c == self.evaluate_spec(*ray, *hit),
    {
        let toward_ground: bool = if hit.is_some() {
            ray.direction.v.z > 0
        } else {
            ray.direction.v.z < 0
        };
        if toward_ground {
            RgbIntensity::splat(FX_TENTH)
        } else {
            RgbIntensity::new(FX_SEVEN_TENTHS, FX_EIGHT_TENTHS, FX_ONE)
        }
    }
}

/// A constant ambient color.
#[derive(Clone, Copy, PartialEq, Eq, Structural, Debug)]
pub struct Solid {
    pub color: RgbIntensity,
}

impl Solid {
    pub fn new(color: RgbIntensity) -> (s: Solid)
        ensures
            s == (Solid { color }),
    {
        Solid { color }
    }
}

impl Ambient for Solid {
    open spec fn evaluate_spec(&self, ray: Ray, hit: Option<Hit>) -> RgbIntensity {
        self.color
    }

    fn evaluate(&self, ray: &Ray, hit: &Option<Hit>) -> (c: RgbIntensity)
        ensures
            c == self.evaluate_spec(*ray, *hit),
    {
        self.color
    }
}

/// The recursive ray tracer.
#[derive(Clone, Debug)]
pub struct GlobalIllumination<M: Model, A: Ambient> {
    pub light_list: Vec<PointLight>,
    pub scene: Scene<M>,
    pub bounce_limit: usize,
    pub ambient: A,
}

/// One step of a shadow ray's walk toward a light: transmissive surfaces
/// attenuate the carried light by `transmittance * color`; an opaque surface
/// absorbs it entirely; an intersection at or beyond the light (factor at
/// least `left`) does not occlude. `fuel` caps the walk.
pub open spec fn spec_shadow_walk<M: Model>(
    objects: Seq<M>,
    lray: Ray,
    dir: Unit,
    absorbed: RgbIntensity,
    left: i64,
    fuel: nat,
) -> RgbIntensity
    decreases fuel,
{
    if fuel == 0 {
        spec_rgb(0, 0, 0)
    } else {
        match spec_scene_hit(objects, lray) {
            None => absorbed,
            Some(h) => {
                if h.factor >= left {
                    absorbed
                } else if h.material.transmission {
                    let a2 = if spec_dot(h.normal.v, dir.v) < 0 {
                        spec_cmul(spec_cmul(absorbed, h.material.transmittance), h.material.color)
                    } else {
                        absorbed
                    };
                    spec_shadow_walk(
                        objects,
                        Ray {
                            origin: spec_vadd(h.pos, spec_vscale(dir.v, GI_EPSILON)),
                            direction: dir,
                            ior: lray.ior,
                        },
                        dir,
                        a2,
                        spec_sub(left, h.factor),
                        (fuel - 1) as nat,
                    )
                } else {
                    spec_rgb(0, 0, 0)
                }
            },
        }
    }
}

/// What one point light contributes at a hit: its color attenuated through
/// transmissive occluders, scaled by its intensity, falling off with
/// `intensity / (distance + 1)^2`.
pub open spec fn spec_point_light_intensity<M: Model>(
    objects: Seq<M>,
    light: PointLight,
    hit: Hit,
) -> RgbIntensity {
    let dir_unnormed = spec_vsub(light.position, hit.pos);
    let distance = crate::vector::spec_mag(dir_unnormed);
    let dir = spec_unit_normalize(dir_unnormed);
    let absorbed = spec_shadow_walk(
        objects,
        Ray { origin: hit.pos, direction: dir, ior: FX_ONE },
        dir,
        spec_rgb(FX_ONE, FX_ONE, FX_ONE),
        distance,
        SHADOW_FUEL as nat,
    );
    let denom = spec_mul(spec_add(distance, FX_ONE), spec_add(distance, FX_ONE));
    RgbIntensity {
        r: spec_div(spec_mul(spec_mul(light.color.r, absorbed.r), light.intensity), denom),
        g: spec_div(spec_mul(spec_mul(light.color.g, absorbed.g), light.intensity), denom),
        b: spec_div(spec_mul(spec_mul(light.color.b, absorbed.b), light.intensity), denom),
    }
}

/// The diffuse-plus-specular weight of one light at a hit, modulated by what
/// the light actually delivers there.
pub open spec fn spec_exposure_term<M: Model>(
    objects: Seq<M>,
    ray: Ray,
    hit: Hit,
    light: PointLight,
) -> RgbIntensity {
    let light_vector = crate::vector::spec_vnormalize(spec_vsub(light.position, hit.pos));
    let cd = spec_max(spec_dot(hit.normal.v, light_vector), 0);
    let cr = spec_powi(
        spec_max(spec_dot(spec_reflected_dir(ray, hit.normal).v, light_vector), 0),
        hit.material.k as nat,
    );
    spec_cmul(
        spec_cadd(spec_cscale(hit.material.roughness, cd), spec_cscale(hit.material.metallic, cr)),
        spec_point_light_intensity(objects, light, hit),
    )
}

/// The summed direct lighting over a list of point lights.
pub open spec fn spec_light_exposure<M: Model>(
    objects: Seq<M>,
    lights: Seq<PointLight>,
    ray: Ray,
    hit: Hit,
) -> RgbIntensity
    decreases lights.len(),
{
    if lights.len() == 0 {
        spec_rgb(0, 0, 0)
    } else {
        spec_cadd(
            spec_light_exposure(objects, lights.drop_last(), ray, hit),
            spec_exposure_term(objects, ray, hit, lights.last()),
        )
    }
}

/// The full recursive evaluation: ambient plus direct lighting, plus the
/// metallic-weighted mirror bounce and the transmittance-weighted refraction
/// bounce while `depth` is below the bounce limit, all modulated by the
/// surface color. The refractive-index stack records entered media; popping
/// an empty stack falls back to a unit index (the original surrounding
/// medium) instead of failing.
pub open spec fn spec_gi_cast<M: Model, A: Ambient>(
    g: GlobalIllumination<M, A>,
    ray: Ray,
    depth: int,
    stack: Seq<i64>,
) -> RgbIntensity
    decreases g.bounce_limit - depth,
{
    let ray_hit = spec_scene_hit(g.scene.objects@, ray);
    let ambient = g.ambient.evaluate_spec(ray, ray_hit);
    match ray_hit {
        None => ambient,
        Some(hit) => {
            let direct = spec_cadd(
                ambient,
                spec_light_exposure(g.scene.objects@, g.light_list@, ray, hit),
            );
            let total = if depth < g.bounce_limit {
                let refl = spec_reflected_dir(ray, hit.normal);
                let reflected = spec_gi_cast(
                    g,
                    Ray {
                        origin: spec_vadd(hit.pos, spec_vscale(refl.v, GI_EPSILON)),
                        direction: refl,
                        ior: ray.ior,
                    },
                    depth + 1,
                    stack,
                );
                let with_refl = spec_cadd(direct, spec_cmul(reflected, hit.material.metallic));
                if hit.material.transmission {
                    let entering = spec_dot(hit.normal.v, ray.direction.v) <= 0;
                    let ior = if entering {
                        hit.material.ior
                    } else if stack.len() > 0 {
                        stack.last()
                    } else {
                        FX_ONE
                    };
                    let stack2 = if entering {
                        stack.push(hit.material.ior)
                    } else if stack.len() > 0 {
                        stack.drop_last()
                    } else {
                        stack
                    };
                    match spec_refracted_dir(ray, hit.normal, ior) {
                        None => with_refl,
                        Some(rd) => {
                            let refracted = spec_gi_cast(
                                g,
                                Ray {
                                    origin: spec_vadd(hit.pos, spec_vscale(rd.v, GI_EPSILON)),
                                    direction: rd,
                                    ior,
                                },
                                depth + 1,
                                stack2,
                            );
                            spec_cadd(with_refl, spec_cmul(refracted, hit.material.transmittance))
                        },
                    }
                } else {
                    with_refl
                }
            } else {
                direct
            };
            spec_cmul(total, hit.material.color)
        },
    }
}

impl<M: Model, A: Ambient> GlobalIllumination<M, A> {
    pub fn new(scene: Scene<M>, light_list: Vec<PointLight>, bounce_limit: usize, ambient: A) -> (g:
        GlobalIllumination<M, A>)
        ensures
            g.scene == scene,
            g.light_list == light_list,
            g.bounce_limit == bounce_limit,
            g.ambient == ambient,
    {
        GlobalIllumination { scene, light_list, bounce_limit, ambient }
    }

    fn shadow_walk(&self, lray: Ray, dir: Unit, absorbed: RgbIntensity, left: i64, fuel: u32) -> (r:
        RgbIntensity)
        ensures
            r == spec_shadow_walk(self.scene.objects@, lray, dir, absorbed, left, fuel as nat),
        decreases fuel,
    {
        if fuel == 0 {
            return RgbIntensity::zeros();
        }
        match self.scene.intersect(&lray) {
            None => absorbed,
            Some(h) => {
                if h.factor >= left {
                    absorbed
                } else if h.material.transmission {
                    let a2: RgbIntensity = if h.normal.dot_vec(&dir.v) < 0 {
                        absorbed.component_mul(&h.material.transmittance).component_mul(
                            &h.material.color,
                        )
                    } else {
                        absorbed
                    };
                    self.shadow_walk(
                        Ray::new(h.pos.plus(&dir.scale(GI_EPSILON)), dir, lray.ior),
                        dir,
                        a2,
                        fx_sub(left, h.factor),
                        fuel - 1,
                    )
                } else {
                    RgbIntensity::zeros()
                }
            },
        }
    }

    fn point_light_intensity(&self, light: &PointLight, hit: &Hit) -> (r: RgbIntensity)
        ensures
            r == spec_point_light_intensity(self.scene.objects@, *light, *hit),
    {
        let dir_unnormed: Vector = light.position.minus(&hit.pos);
        let distance: i64 = dir_unnormed.magnitude();
        let dir: Unit = Unit::new_normalize(dir_unnormed);
        let absorbed: RgbIntensity = self.shadow_walk(
            Ray::new(hit.pos, dir, FX_ONE),
            dir,
            RgbIntensity::white(),
            distance,
            SHADOW_FUEL,
        );
        let denom: i64 = fx_mul(fx_add(distance, FX_ONE), fx_add(distance, FX_ONE));
        RgbIntensity {
            r: fx_div(fx_mul(fx_mul(light.color.r, absorbed.r), light.intensity), denom),
            g: fx_div(fx_mul(fx_mul(light.color.g, absorbed.g), light.intensity), denom),
            b: fx_div(fx_mul(fx_mul(light.color.b, absorbed.b), light.intensity), denom),
        }
    }

    fn light_exposure(&self, ray: &Ray, hit: &Hit) -> (r: RgbIntensity)
        ensures
            r == spec_light_exposure(self.scene.objects@, self.light_list@, *ray, *hit),
    {
        let mut acc: RgbIntensity = RgbIntensity::zeros();
        let n: usize = self.light_list.len();
        let mut i: usize = 0;
        while i < n
            invariant
                i <= n,
                n == self.light_list@.len(),
                acc == spec_light_exposure(
                    self.scene.objects@,
                    self.light_list@.take(i as int),
                    *ray,
                    *hit,
                ),
            decreases n - i,
        {
            let light: PointLight = self.light_list[i];
            let light_vector: Vector = light.position.minus(&hit.pos).normalize();
            let cd: i64 = fx_max(hit.normal.dot_vec(&light_vector), 0);
            let cr: i64 = fx_powi(
                fx_max(ray.reflected_dir(&hit.normal).dot_vec(&light_vector), 0),
                hit.material.k,
            );
            let term: RgbIntensity = hit.material.roughness.scale(cd).cadd(
                &hit.material.metallic.scale(cr),
            ).component_mul(&self.point_light_intensity(&light, hit));
            proof {
                assert(self.light_list@.take(i + 1).drop_last() =~= self.light_list@.take(i as int));
                assert(self.light_list@.take(i + 1).last() == self.light_list@[i as int]);
            }
            acc = acc.cadd(&term);
            i = i + 1;
        }
        proof {
            assert(self.light_list@.take(n as int) =~= self.light_list@);
        }
        acc
    }

    fn cast_rec(&self, ray: &Ray, depth: usize, ior_stack: Vec<i64>) -> (r: RgbIntensity)
        ensures
            r == spec_gi_cast(*self, *ray, depth as int, ior_stack@),
        decreases self.bounce_limit - depth,
    {
        let ray_hit: Option<Hit> = self.scene.intersect(ray);
        let mut intensity: RgbIntensity = self.ambient.evaluate(ray, &ray_hit);
        if let Some(hit) = ray_hit {
            intensity = intensity.cadd(&self.light_exposure(ray, &hit));
            if depth < self.bounce_limit {
                let mut stack: Vec<i64> = ior_stack;
                let refl: Unit = ray.reflected_dir(&hit.normal);
                let reflected: RgbIntensity = self.cast_rec(
                    &Ray::new(hit.pos.plus(&refl.scale(GI_EPSILON)), refl, ray.ior),
                    depth + 1,
                    copy_stack(&stack),
                );
                intensity = intensity.cadd(&reflected.component_mul(&hit.material.metallic));
                if hit.material.transmission {
                    let entering: bool = hit.normal.dot(&ray.direction) <= 0;
                    let ior: i64 = if entering {
                        stack.push(hit.material.ior);
                        hit.material.ior
                    } else {
                        match stack.pop() {
                            Some(v) => v,
                            None => FX_ONE,
                        }
                    };
                    if let Some(rd) = ray.refracted_dir(&hit.normal, ior) {
                        let refracted: RgbIntensity = self.cast_rec(
                            &Ray::new(hit.pos.plus(&rd.scale(GI_EPSILON)), rd, ior),
                            depth + 1,
                            stack,
                        );
                        intensity = intensity.cadd(
                            &refracted.component_mul(&hit.material.transmittance),
                        );
                    }
                }
            }
            intensity = intensity.component_mul(&hit.material.color);
        }
        intensity
    }
}

/// Copy a refractive-index stack.
fn copy_stack(v: &Vec<i64>) -> (r: Vec<i64>)
    ensures
        r@ == v@,
{
    let mut r: Vec<i64> = Vec::new();
    let n: usize = v.len();
    let mut i: usize = 0;
    while i < n
        invariant
            i <= n,
            n == v@.len(),
            r@ == v@.take(i as int),
        decreases n - i,
    {
        r.push(v[i]);
        proof {
            assert(v@.take(i + 1) =~= v@.take(i as int).push(v@[i as int]));
        }
        i = i + 1;
    }
    proof {
        assert(v@.take(n as int) =~= v@);
    }
    r
}

impl<M: Model, A: Ambient> Renderer for GlobalIllumination<M, A> {
    open spec fn cast_spec(&self, ray: Ray) -> RgbIntensity {
        spec_gi_cast(*self, ray, 0, seq![FX_ONE])
    }

    /// Cast with the refractive-index stack holding the surrounding medium.
    fn cast(&self, ray: &Ray) -> (c: RgbIntensity)
        ensures
            c == self.cast_spec(*ray),
    {
        let stack: Vec<i64> = vec![FX_ONE];
        proof {
            assert(stack@ =~= seq![FX_ONE]);
        }
        self.cast_rec(ray, 0, stack)
    }
}


/// Every hit the scene can report carries a material with nonnegative
/// channels.
pub open spec fn scene_materials_nonneg<M: Model>(objects: Seq<M>) -> bool {
    forall|r: Ray|
        match #[trigger] spec_scene_hit(objects, r) {
            None => true,
            Some(h) => crate::material::material_nonneg(h.material),
        }
}

/// Every light has a nonnegative color and intensity.
pub open spec fn lights_nonneg(lights: Seq<PointLight>) -> bool {
    forall|i: int|
        0 <= i < lights.len() ==> crate::color::rgb_nonneg((#[trigger] lights[i]).color)
            && lights[i].intensity >= 0
}

/// The ambient evaluator only produces intensities in `[0, FX_MAX]`.
pub open spec fn ambient_in_range<A: Ambient>(a: A) -> bool {
    forall|r: Ray, h: Option<Hit>| crate::color::rgb_in_range(#[trigger] a.evaluate_spec(r, h))
}

proof fn lemma_shadow_walk_nonneg<M: Model>(
    objects: Seq<M>,
    lray: Ray,
    dir: Unit,
    absorbed: RgbIntensity,
    left: i64,
    fuel: nat,
)
    requires
        scene_materials_nonneg(objects),
        crate::color::rgb_nonneg(absorbed),
    ensures
        crate::color::rgb_nonneg(spec_shadow_walk(objects, lray, dir, absorbed, left, fuel)),
    decreases fuel,
{
    if fuel == 0 {
    } else {
        match spec_scene_hit(objects, lray) {
            None => {},
            Some(h) => {
                if h.factor >= left {
                } else if h.material.transmission {
                    let a2 = if spec_dot(h.normal.v, dir.v) < 0 {
                        crate::color::lemma_cmul_nonneg(absorbed, h.material.transmittance);
                        crate::color::lemma_cmul_nonneg(
                            spec_cmul(absorbed, h.material.transmittance),
                            h.material.color,
                        );
                        spec_cmul(spec_cmul(absorbed, h.material.transmittance), h.material.color)
                    } else {
                        absorbed
                    };
                    lemma_shadow_walk_nonneg(
                        objects,
                        Ray {
                            origin: spec_vadd(h.pos, spec_vscale(dir.v, GI_EPSILON)),
                            direction: dir,
                            ior: lray.ior,
                        },
                        dir,
                        a2,
                        spec_sub(left, h.factor),
                        (fuel - 1) as nat,
                    );
                }
            },
        }
    }
}

proof fn lemma_pli_nonneg<M: Model>(objects: Seq<M>, light: PointLight, hit: Hit)
    requires
        scene_materials_nonneg(objects),
        crate::color::rgb_nonneg(light.color),
        light.intensity >= 0,
    ensures
        crate::color::rgb_in_range(spec_point_light_intensity(objects, light, hit)),
{
    let dir_unnormed = spec_vsub(light.position, hit.pos);
    let distance = crate::vector::spec_mag(dir_unnormed);
    crate::fixed::lemma_sqrt_nonneg(crate::vector::spec_mag_sq(dir_unnormed));
    let dir = spec_unit_normalize(dir_unnormed);
    let absorbed = spec_shadow_walk(
        objects,
        Ray { origin: hit.pos, direction: dir, ior: FX_ONE },
        dir,
        spec_rgb(FX_ONE, FX_ONE, FX_ONE),
        distance,
        SHADOW_FUEL as nat,
    );
    lemma_shadow_walk_nonneg(
        objects,
        Ray { origin: hit.pos, direction: dir, ior: FX_ONE },
        dir,
        spec_rgb(FX_ONE, FX_ONE, FX_ONE),
        distance,
        SHADOW_FUEL as nat,
    );
    crate::fixed::lemma_add_range(distance, FX_ONE);
    let d1 = spec_add(distance, FX_ONE);
    crate::fixed::lemma_mul_range(d1, d1);
    let denom = spec_mul(d1, d1);
    crate::fixed::lemma_mul_range(light.color.r, absorbed.r);
    crate::fixed::lemma_mul_range(light.color.g, absorbed.g);
    crate::fixed::lemma_mul_range(light.color.b, absorbed.b);
    crate::fixed::lemma_mul_range(spec_mul(light.color.r, absorbed.r), light.intensity);
    crate::fixed::lemma_mul_range(spec_mul(light.color.g, absorbed.g), light.intensity);
    crate::fixed::lemma_mul_range(spec_mul(light.color.b, absorbed.b), light.intensity);
    crate::fixed::lemma_div_range(
        spec_mul(spec_mul(light.color.r, absorbed.r), light.intensity),
        denom,
    );
    crate::fixed::lemma_div_range(
        spec_mul(spec_mul(light.color.g, absorbed.g), light.intensity),
        denom,
    );
    crate::fixed::lemma_div_range(
        spec_mul(spec_mul(light.color.b, absorbed.b), light.intensity),
        denom,
    );
}

proof fn lemma_exposure_term_nonneg<M: Model>(objects: Seq<M>, ray: Ray, hit: Hit, light: PointLight)
    requires
        scene_materials_nonneg(objects),
        crate::material::material_nonneg(hit.material),
        crate::color::rgb_nonneg(light.color),
        light.intensity >= 0,
    ensures
        crate::color::rgb_in_range(spec_exposure_term(objects, ray, hit, light)),
{
    let light_vector = crate::vector::spec_vnormalize(spec_vsub(light.position, hit.pos));
    let cd = spec_max(spec_dot(hit.normal.v, light_vector), 0);
    let cr_base = spec_max(spec_dot(spec_reflected_dir(ray, hit.normal).v, light_vector), 0);
    crate::fixed::lemma_powi_nonneg(cr_base, hit.material.k as nat);
    let cr = spec_powi(cr_base, hit.material.k as nat);
    crate::color::lemma_cscale_nonneg(hit.material.roughness, cd);
    crate::color::lemma_cscale_nonneg(hit.material.metallic, cr);
    crate::color::lemma_cadd_nonneg(
        spec_cscale(hit.material.roughness, cd),
        spec_cscale(hit.material.metallic, cr),
    );
    lemma_pli_nonneg(objects, light, hit);
    crate::color::lemma_cmul_nonneg(
        spec_cadd(spec_cscale(hit.material.roughness, cd), spec_cscale(hit.material.metallic, cr)),
        spec_point_light_intensity(objects, light, hit),
    );
}

proof fn lemma_light_exposure_nonneg<M: Model>(
    objects: Seq<M>,
    lights: Seq<PointLight>,
    ray: Ray,
    hit: Hit,
)
    requires
        scene_materials_nonneg(objects),
        lights_nonneg(lights),
        crate::material::material_nonneg(hit.material),
    ensures
        crate::color::rgb_in_range(spec_light_exposure(objects, lights, ray, hit)),
    decreases lights.len(),
{
    if lights.len() == 0 {
    } else {
        assert(forall|i: int|
            0 <= i < lights.drop_last().len() ==> #[trigger] lights.drop_last()[i] == lights[i]);
        lemma_light_exposure_nonneg(objects, lights.drop_last(), ray, hit);
        assert(lights.last() == lights[lights.len() - 1]);
        lemma_exposure_term_nonneg(objects, ray, hit, lights.last());
        crate::color::lemma_cadd_nonneg(
            spec_light_exposure(objects, lights.drop_last(), ray, hit),
            spec_exposure_term(objects, ray, hit, lights.last()),
        );
    }
}

/// Energy non-negativity and boundedness: when every material the scene can
/// report, every light, and the ambient evaluator carry only nonnegative
/// channels, the recursive tracer's answer is nonnegative on each channel at
/// every depth, and it cannot diverge: every accumulation saturates at the
/// representable maximum, and each recursive term enters weighted by a
/// clamped material coefficient.
pub proof fn lemma_gi_cast_energy<M: Model, A: Ambient>(
    g: GlobalIllumination<M, A>,
    ray: Ray,
    depth: int,
    stack: Seq<i64>,
)
    requires
        scene_materials_nonneg(g.scene.objects@),
        lights_nonneg(g.light_list@),
        ambient_in_range(g.ambient),
    ensures
        crate::color::rgb_in_range(spec_gi_cast(g, ray, depth, stack)),
    decreases g.bounce_limit - depth,
{
    let ray_hit = spec_scene_hit(g.scene.objects@, ray);
    let ambient = g.ambient.evaluate_spec(ray, ray_hit);
    assert(crate::color::rgb_in_range(ambient));
    match ray_hit {
        None => {},
        Some(hit) => {
            assert(crate::material::material_nonneg(hit.material));
            lemma_light_exposure_nonneg(g.scene.objects@, g.light_list@, ray, hit);
            let exposure = spec_light_exposure(g.scene.objects@, g.light_list@, ray, hit);
            crate::color::lemma_cadd_nonneg(ambient, exposure);
            let direct = spec_cadd(ambient, exposure);
            let total = if depth < g.bounce_limit {
                let refl = spec_reflected_dir(ray, hit.normal);
                let rray = Ray {
                    origin: spec_vadd(hit.pos, spec_vscale(refl.v, GI_EPSILON)),
                    direction: refl,
                    ior: ray.ior,
                };
                lemma_gi_cast_energy(g, rray, depth + 1, stack);
                let reflected = spec_gi_cast(g, rray, depth + 1, stack);
                crate::color::lemma_cmul_nonneg(reflected, hit.material.metallic);
                crate::color::lemma_cadd_nonneg(direct, spec_cmul(reflected, hit.material.metallic));
                let with_refl = spec_cadd(direct, spec_cmul(reflected, hit.material.metallic));
                if hit.material.transmission {
                    let entering = spec_dot(hit.normal.v, ray.direction.v) <= 0;
                    let ior = if entering {
                        hit.material.ior
                    } else if stack.len() > 0 {
                        stack.last()
                    } else {
                        FX_ONE
                    };
                    let stack2 = if entering {
                        stack.push(hit.material.ior)
                    } else if stack.len() > 0 {
                        stack.drop_last()
                    } else {
                        stack
                    };
                    match spec_refracted_dir(ray, hit.normal, ior) {
                        None => with_refl,
                        Some(rd) => {
                            let rray2 = Ray {
                                origin: spec_vadd(hit.pos, spec_vscale(rd.v, GI_EPSILON)),
                                direction: rd,
                                ior,
                            };
                            lemma_gi_cast_energy(g, rray2, depth + 1, stack2);
                            let refracted = spec_gi_cast(g, rray2, depth + 1, stack2);
                            crate::color::lemma_cmul_nonneg(refracted, hit.material.transmittance);
                            crate::color::lemma_cadd_nonneg(
                                with_refl,
                                spec_cmul(refracted, hit.material.transmittance),
                            );
                            spec_cadd(with_refl, spec_cmul(refracted, hit.material.transmittance))
                        },
                    }
                } else {
                    with_refl
                }
            } else {
                direct
            };
            crate::color::lemma_cmul_nonneg(total, hit.material.color);
        },
    }
}


/// The energy law at the renderer's own interface: the intensity `cast`
/// returns for any ray is nonnegative on each channel and saturated at the
/// representable maximum.
pub proof fn lemma_gi_renderer_energy<M: Model, A: Ambient>(g: GlobalIllumination<M, A>, ray: Ray)
    requires
        scene_materials_nonneg(g.scene.objects@),
        lights_nonneg(g.light_list@),
        ambient_in_range(g.ambient),
    ensures
        crate::color::rgb_in_range(g.cast_spec(ray)),
{
    lemma_gi_cast_energy(g, ray, 0, seq![FX_ONE]);
}

} // verus!


