//! Monte Carlo unidirectional path tracing.
//!
//! Each pixel estimate averages `samples` independent random walks. The
//! walk's randomness comes from a deterministic generator whose stream is
//! derived from the renderer's master seed and the cast ray, so a render is
//! a pure function of the renderer and the camera: the same seed always
//! produces the same image, on one thread or many.

use vstd::prelude::*;

use crate::color::{spec_cadd, spec_cmul, spec_rgb, RgbIntensity};
use crate::fixed::{fx_abs, fx_divn, fx_mul, fx_sqrt, fx_sub, spec_abs, spec_divn, spec_mul,
    spec_muln, spec_sqrt, spec_sub, FX_ONE};
use crate::fixed::fx_muln;
use crate::hit::Hit;
use crate::material::FX_FIFTH;
use crate::model::Model;
use crate::ray::Ray;
use crate::renderer::Renderer;
use crate::rng::{spec_pcg_draw, spec_pcg_mix, spec_pcg_seed, Pcg};
use crate::scene::{spec_scene_hit, Scene};
use crate::trig::{fx_cos, fx_sin, spec_cos, spec_sin, FX_TAU};
use crate::vector::{spec_cross, spec_dot, spec_vadd, spec_vscale, Unit,
    Vector};

verus! {

/// Tolerance under which the surface normal counts as parallel to the
/// vertical axis (about 1e-4), forcing a different tangent seed axis.
pub const AXIS_EPSILON: i64 = 429497;

/// The pluggable environment (what a ray that escapes the scene sees).
pub trait Environment: Sized {
    /// The environment intensity along a ray.
    spec fn evaluate_spec(&self, ray: Ray) -> RgbIntensity;

    fn evaluate(&self, ray: &Ray) -> (c: RgbIntensity)
        ensures
            c == self.evaluate_spec(*ray),
    ;
}

/// A dim constant environment.
#[derive(Clone, Copy, PartialEq, Eq, Structural, Debug)]
pub struct Black {}

impl Environment for Black {
    open spec fn evaluate_spec(&self, ray: Ray) -> RgbIntensity {
        spec_rgb(FX_FIFTH, FX_FIFTH, FX_FIFTH)
    }

    fn evaluate(&self, ray: &Ray) -> (c: RgbIntensity)
        ensures
            c == self.evaluate_spec(*ray),
    {
        RgbIntensity::splat(FX_FIFTH)
    }
}

/// The path tracer: scene, environment, walk length, master seed, and the
/// number of walks averaged per cast.
#[derive(Clone, Debug)]
pub struct Sampling<M: Model, E: Environment> {
    pub scene: Scene<M>,
    pub environment: E,
    pub bounce_limit: usize,
    pub seed: u64,
    pub samples: usize,
}

/// A cosine-weighted direction in the hemisphere about `norm`, from two
/// uniform values `r1, r2` in `[0, 1)`: built on an orthonormal tangent
/// basis, with `cos = sqrt(r1)` toward the normal.
pub open spec fn spec_diffused_dir(norm: Unit, r1: i64, r2: i64) -> Unit {
    let axis = if spec_abs(spec_sub(norm.v.z, FX_ONE)) < AXIS_EPSILON {
        Vector { x: 0, y: FX_ONE, z: 0, w: 0 }
    } else {
        Vector { x: 0, y: 0, z: FX_ONE, w: 0 }
    };
    let t1 = crate::vector::spec_vnormalize(spec_cross(axis, norm.v));
    let t2 = spec_cross(t1, norm.v);
    let angle = spec_mul(r2, FX_TAU);
    let cos = spec_sqrt(r1);
    let sin = spec_sqrt(spec_sub(FX_ONE, r1));
    Unit {
        v: spec_vadd(
            spec_vadd(
                spec_vscale(norm.v, cos),
                spec_vscale(t1, spec_mul(sin, spec_sin(angle))),
            ),
            spec_vscale(t2, spec_mul(sin, spec_cos(angle))),
        ),
    }
}

/// The mirror reflection used by the specular branch of the walk.
pub open spec fn spec_sampling_reflect(original: Unit, norm: Unit) -> Unit {
    Unit {
        v: spec_vadd(
            original.v,
            spec_vscale(norm.v, spec_muln(spec_dot(norm.v, original.v), -2i64)),
        ),
    }
}

/// The next ray of a walk at a hit: with probability `metallic` (one uniform
/// draw) a perfect mirror reflection, otherwise a cosine-weighted random
/// direction (two more draws). Returns the ray and the generator state after
/// the draws.
pub open spec fn spec_define_new_ray(original: Ray, hit: Hit, state: u128) -> (Ray, u128) {
    let (specular, st1) = spec_pcg_draw(state);
    if specular <= hit.material.metallic.r {
        (
            Ray {
                direction: spec_sampling_reflect(original.direction, hit.normal),
                origin: hit.pos,
                ior: FX_ONE,
            },
            st1,
        )
    } else {
        let (r1, st2) = spec_pcg_draw(st1);
        let (r2, st3) = spec_pcg_draw(st2);
        (
            Ray { direction: spec_diffused_dir(hit.normal, r1, r2), origin: hit.pos, ior: FX_ONE },
            st3,
        )
    }
}

/// One random walk: accumulate emission weighted by the running throughput,
/// multiply the throughput by the surface color at each bounce, and close
/// with the environment term on escape. Returns the collected emission and
/// the generator state after the walk.
pub open spec fn spec_walk<M: Model, E: Environment>(
    s: Sampling<M, E>,
    ray: Ray,
    color: RgbIntensity,
    emission: RgbIntensity,
    state: u128,
    fuel: nat,
) -> (RgbIntensity, u128)
    decreases fuel,
{
    if fuel == 0 {
        (emission, state)
    } else {
        match spec_scene_hit(s.scene.objects@, ray) {
            Some(hit) => {
                let (new_ray, st1) = spec_define_new_ray(ray, hit, state);
                spec_walk(
                    s,
                    new_ray,
                    spec_cmul(hit.material.color, color),
                    spec_cadd(emission, spec_cmul(hit.material.emissivity, color)),
                    st1,
                    (fuel - 1) as nat,
                )
            },
            None => (spec_cadd(spec_cmul(s.environment.evaluate_spec(ray), color), emission), state),
        }
    }
}

/// One full sample: a walk starting with white throughput and no emission.
pub open spec fn spec_cast_once<M: Model, E: Environment>(
    s: Sampling<M, E>,
    ray: Ray,
    state: u128,
) -> (RgbIntensity, u128) {
    spec_walk(
        s,
        ray,
        spec_rgb(FX_ONE, FX_ONE, FX_ONE),
        spec_rgb(0, 0, 0),
        state,
        s.bounce_limit as nat,
    )
}

/// The generator state a cast starts from: the master seed with every raw
/// component of the ray absorbed, so distinct rays get distinct,
/// deterministic streams.
pub open spec fn spec_ray_state(seed: u64, ray: Ray) -> u128 {
    let s0 = spec_pcg_seed(seed);
    let s1 = spec_pcg_mix(s0, ray.origin.x);
    let s2 = spec_pcg_mix(s1, ray.origin.y);
    let s3 = spec_pcg_mix(s2, ray.origin.z);
    let s4 = spec_pcg_mix(s3, ray.origin.w);
    let s5 = spec_pcg_mix(s4, ray.direction.v.x);
    let s6 = spec_pcg_mix(s5, ray.direction.v.y);
    let s7 = spec_pcg_mix(s6, ray.direction.v.z);
    let s8 = spec_pcg_mix(s7, ray.direction.v.w);
    spec_pcg_mix(s8, ray.ior)
}

/// The sum of `left` further samples, threading the generator state.
pub open spec fn spec_sample_walk<M: Model, E: Environment>(
    s: Sampling<M, E>,
    ray: Ray,
    acc: RgbIntensity,
    state: u128,
    left: nat,
) -> (RgbIntensity, u128)
    decreases left,
{
    if left == 0 {
        (acc, state)
    } else {
        let (c, st1) = spec_cast_once(s, ray, state);
        spec_sample_walk(s, ray, spec_cadd(acc, c), st1, (left - 1) as nat)
    }
}

/// The pixel estimate: the arithmetic mean of `samples` independent walks.
pub open spec fn spec_sampling_cast<M: Model, E: Environment>(
    s: Sampling<M, E>,
    ray: Ray,
) -> RgbIntensity {
    let (sum, st) = spec_sample_walk(
        s,
        ray,
        spec_rgb(0, 0, 0),
        spec_ray_state(s.seed, ray),
        s.samples as nat,
    );
    RgbIntensity {
        r: spec_divn(sum.r, s.samples as i64),
        g: spec_divn(sum.g, s.samples as i64),
        b: spec_divn(sum.b, s.samples as i64),
    }
}

impl<M: Model, E: Environment> Sampling<M, E> {
    /// A path tracer over `scene`. `seed` is the master seed of the
    /// deterministic random streams; every walk derives its own stream from
    /// it, so workers never share generator state.
    pub fn new(scene: Scene<M>, environment: E, bounce_limit: usize, seed: u64, samples: usize)
        -> (s: Sampling<M, E>)
        ensures
            s.scene == scene,
            s.environment == environment,
            s.bounce_limit == bounce_limit,
            s.seed == seed,
            s.samples == samples,
    {
        Sampling { scene, environment, bounce_limit, seed, samples }
    }

    /// The cosine-weighted hemisphere sample about `norm`, drawing two
    /// uniforms.
    fn diffused_dir(&self, norm: &Unit, rng: &mut Pcg) -> (r: Unit)
        ensures
            ({
                let (r1, st1) = spec_pcg_draw(old(rng).state);
                let (r2, st2) = spec_pcg_draw(st1);
                r == spec_diffused_dir(*norm, r1, r2) && final(rng).state == st2
            }),
    {
        let r1: i64 = rng.next_fx();
        let r2: i64 = rng.next_fx();
        let axis: Vector = if fx_abs(fx_sub(norm.v.z, FX_ONE)) < AXIS_EPSILON {
            Vector::new(0, FX_ONE, 0, 0)
        } else {
            Vector::new(0, 0, FX_ONE, 0)
        };
        let t1: Vector = axis.cross(&norm.v).normalize();
        let t2: Vector = t1.cross(&norm.v);
        let angle: i64 = fx_mul(r2, FX_TAU);
        let cos: i64 = fx_sqrt(r1);
        let sin: i64 = fx_sqrt(fx_sub(FX_ONE, r1));
        Unit::new_unchecked(
            norm.v.scale(cos).plus(&t1.scale(fx_mul(sin, fx_sin(angle)))).plus(
                &t2.scale(fx_mul(sin, fx_cos(angle))),
            ),
        )
    }

    /// The mirror reflection of the specular branch.
    fn reflected_ray(original: &Unit, norm: &Unit) -> (r: Unit)
        ensures
            r == spec_sampling_reflect(*original, *norm),
    {
        Unit::new_unchecked(
            original.into_inner().plus(&norm.scale(fx_muln(norm.dot(original), -2))),
        )
    }

    /// The next ray of the walk at `hit`.
    fn define_new_ray(&self, original: &Ray, hit: &Hit, rng: &mut Pcg) -> (r: Ray)
        ensures
            (r, final(rng).state) == spec_define_new_ray(*original, *hit, old(rng).state),
    {
        let specular: i64 = rng.next_fx();
        let direction: Unit = if specular <= hit.material.metallic.r {
            Self::reflected_ray(&original.direction, &hit.normal)
        } else {
            self.diffused_dir(&hit.normal, rng)
        };
        Ray { direction, origin: hit.pos, ior: FX_ONE }
    }

    /// One random walk.
    fn cast_once(&self, ray: &Ray, rng: &mut Pcg) -> (r: RgbIntensity)
        ensures
            (r, final(rng).state) == spec_cast_once(*self, *ray, old(rng).state),
    {
        let mut current_ray: Ray = *ray;
        let mut color: RgbIntensity = RgbIntensity::white();
        let mut emission: RgbIntensity = RgbIntensity::zeros();
        let mut fuel: usize = self.bounce_limit;
        let mut early: Option<RgbIntensity> = None;
        while fuel > 0 && early.is_none()
            invariant
                early is None ==> spec_walk(
                    *self,
                    *ray,
                    spec_rgb(FX_ONE, FX_ONE, FX_ONE),
                    spec_rgb(0, 0, 0),
                    old(rng).state,
                    self.bounce_limit as nat,
                ) == spec_walk(*self, current_ray, color, emission, rng.state, fuel as nat),
                early matches Some(e) ==> spec_walk(
                    *self,
                    *ray,
                    spec_rgb(FX_ONE, FX_ONE, FX_ONE),
                    spec_rgb(0, 0, 0),
                    old(rng).state,
                    self.bounce_limit as nat,
                ) == (e, rng.state),
            decreases fuel, (if early is Some { 0int } else { 1int }),
        {
            match self.scene.intersect(&current_ray) {
                Some(hit) => {
                    let new_ray: Ray = self.define_new_ray(&current_ray, &hit, rng);
                    emission = emission.cadd(&hit.material.emissivity.component_mul(&color));
                    color = hit.material.color.component_mul(&color);
                    current_ray = new_ray;
                    fuel = fuel - 1;
                },
                None => {
                    early = Some(
                        self.environment.evaluate(&current_ray).component_mul(&color).cadd(
                            &emission,
                        ),
                    );
                },
            }
        }
        match early {
            Some(e) => e,
            None => emission,
        }
    }
}

impl<M: Model, E: Environment> Renderer for Sampling<M, E> {
    open spec fn cast_spec(&self, ray: Ray) -> RgbIntensity {
        spec_sampling_cast(*self, ray)
    }

    /// Average `samples` walks, each drawing from the deterministic per-ray
    /// stream.
    fn cast(&self, ray: &Ray) -> (c: RgbIntensity)
        ensures
            c == self.cast_spec(*ray),
    {
        let mut rng: Pcg = Pcg::seed_from_u64(self.seed);
        rng.mix(ray.origin.x);
        rng.mix(ray.origin.y);
        rng.mix(ray.origin.z);
        rng.mix(ray.origin.w);
        rng.mix(ray.direction.v.x);
        rng.mix(ray.direction.v.y);
        rng.mix(ray.direction.v.z);
        rng.mix(ray.direction.v.w);
        rng.mix(ray.ior);
        proof {
            assert(rng.state == spec_ray_state(self.seed, *ray));
        }
        let mut acc: RgbIntensity = RgbIntensity::zeros();
        let mut left: usize = self.samples;
        while left > 0
            invariant
                spec_sample_walk(
                    *self,
                    *ray,
                    spec_rgb(0, 0, 0),
                    spec_ray_state(self.seed, *ray),
                    self.samples as nat,
                ) == spec_sample_walk(*self, *ray, acc, rng.state, left as nat),
            decreases left,
        {
            let c: RgbIntensity = self.cast_once(ray, &mut rng);
            acc = acc.cadd(&c);
            left = left - 1;
        }
        RgbIntensity {
            r: fx_divn(acc.r, self.samples as i64),
            g: fx_divn(acc.g, self.samples as i64),
            b: fx_divn(acc.b, self.samples as i64),
        }
    }
}


/// Every environment intensity the evaluator can produce is in
/// `[0, FX_MAX]`.
pub open spec fn environment_in_range<E: Environment>(e: E) -> bool {
    forall|r: Ray| crate::color::rgb_in_range(#[trigger] e.evaluate_spec(r))
}

proof fn lemma_walk_nonneg<M: Model, E: Environment>(
    s: Sampling<M, E>,
    ray: Ray,
    color: RgbIntensity,
    emission: RgbIntensity,
    state: u128,
    fuel: nat,
)
    requires
        crate::global_illumination::scene_materials_nonneg(s.scene.objects@),
        environment_in_range(s.environment),
        crate::color::rgb_nonneg(color),
        crate::color::rgb_nonneg(emission),
        emission.r <= crate::fixed::FX_MAX,
        emission.g <= crate::fixed::FX_MAX,
        emission.b <= crate::fixed::FX_MAX,
    ensures
        crate::color::rgb_in_range(spec_walk(s, ray, color, emission, state, fuel).0),
    decreases fuel,
{
    if fuel == 0 {
    } else {
        match spec_scene_hit(s.scene.objects@, ray) {
            Some(hit) => {
                let (new_ray, st1) = spec_define_new_ray(ray, hit, state);
                crate::color::lemma_cmul_nonneg(hit.material.color, color);
                crate::color::lemma_cmul_nonneg(hit.material.emissivity, color);
                crate::color::lemma_cadd_nonneg(
                    emission,
                    spec_cmul(hit.material.emissivity, color),
                );
                lemma_walk_nonneg(
                    s,
                    new_ray,
                    spec_cmul(hit.material.color, color),
                    spec_cadd(emission, spec_cmul(hit.material.emissivity, color)),
                    st1,
                    (fuel - 1) as nat,
                );
            },
            None => {
                crate::color::lemma_cmul_nonneg(s.environment.evaluate_spec(ray), color);
                crate::color::lemma_cadd_nonneg(
                    spec_cmul(s.environment.evaluate_spec(ray), color),
                    emission,
                );
            },
        }
    }
}

/// Energy non-negativity of the path tracer: when every material the scene
/// can report and the environment carry only nonnegative channels, every
/// pixel estimate is nonnegative on each channel and saturates at the
/// representable maximum.
pub proof fn lemma_sampling_cast_energy<M: Model, E: Environment>(s: Sampling<M, E>, ray: Ray)
    requires
        crate::global_illumination::scene_materials_nonneg(s.scene.objects@),
        environment_in_range(s.environment),
        s.samples as i64 >= 0,
    ensures
        crate::color::rgb_in_range(spec_sampling_cast(s, ray)),
{
    lemma_sample_walk_nonneg(
        s,
        ray,
        spec_rgb(0, 0, 0),
        spec_ray_state(s.seed, ray),
        s.samples as nat,
    );
    let (sum, st) = spec_sample_walk(
        s,
        ray,
        spec_rgb(0, 0, 0),
        spec_ray_state(s.seed, ray),
        s.samples as nat,
    );
    crate::fixed::lemma_divn_range(sum.r, s.samples as i64);
    crate::fixed::lemma_divn_range(sum.g, s.samples as i64);
    crate::fixed::lemma_divn_range(sum.b, s.samples as i64);
}

proof fn lemma_sample_walk_nonneg<M: Model, E: Environment>(
    s: Sampling<M, E>,
    ray: Ray,
    acc: RgbIntensity,
    state: u128,
    left: nat,
)
    requires
        crate::global_illumination::scene_materials_nonneg(s.scene.objects@),
        environment_in_range(s.environment),
        crate::color::rgb_nonneg(acc),
    ensures
        crate::color::rgb_nonneg(spec_sample_walk(s, ray, acc, state, left).0),
    decreases left,
{
    if left == 0 {
    } else {
        let (c, st1) = spec_cast_once(s, ray, state);
        lemma_walk_nonneg(
            s,
            ray,
            spec_rgb(FX_ONE, FX_ONE, FX_ONE),
            spec_rgb(0, 0, 0),
            state,
            s.bounce_limit as nat,
        );
        crate::color::lemma_cadd_nonneg(acc, c);
        lemma_sample_walk_nonneg(s, ray, spec_cadd(acc, c), st1, (left - 1) as nat);
    }
}

} // verus!

