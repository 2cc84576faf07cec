//! Rays and the shared reflection / refraction direction helpers.

use vstd::prelude::*;

use crate::fixed::{fx_div, fx_mul, fx_muln, fx_neg, fx_sqrt, fx_sub, spec_div, spec_mul, spec_muln,
    spec_neg, spec_sqrt, spec_sub, FX_ONE};
use crate::vector::{spec_dot, spec_vadd, spec_vneg, spec_vscale, Unit, Vector};

verus! {

/// A ray: origin, unit direction, and the refractive index of the medium the
/// ray currently travels through.
#[derive(Clone, Copy, PartialEq, Eq, Structural, Debug)]
pub struct Ray {
    pub origin: Vector,
    pub direction: Unit,
    pub ior: i64,
}

/// The refraction discriminant `1 - r^2 (1 - c^2)` of Snell's law in vector
/// form, for ratio `r` and incidence cosine `c`.
pub open spec fn spec_refraction_disc(r: i64, c: i64) -> i64 {
    spec_sub(FX_ONE, spec_mul(spec_mul(r, r), spec_sub(FX_ONE, spec_mul(c, c))))
}

/// The refracted direction of `ray` against `normal` into a medium of index
/// `env_nu`; `None` under total internal reflection. The normal is reoriented
/// against the ray first, so either surface orientation may be passed.
pub open spec fn spec_refracted_dir(ray: Ray, normal: Unit, env_nu: i64) -> Option<Unit> {
    let dot_prod = spec_dot(ray.direction.v, normal.v);
    let norm = if dot_prod >= 0 {
        spec_vneg(normal.v)
    } else {
        normal.v
    };
    let r = spec_div(ray.ior, env_nu);
    let c = spec_neg(spec_dot(ray.direction.v, norm));
    let d = spec_refraction_disc(r, c);
    if d < 0 {
        None
    } else {
        Some(
            Unit {
                v: spec_vadd(
                    spec_vscale(ray.direction.v, r),
                    spec_vscale(norm, spec_sub(spec_mul(r, c), spec_sqrt(d))),
                ),
            },
        )
    }
}

/// The mirror reflection `d - 2 (d . n) n` of the ray direction `d` about the
/// surface normal `n`.
pub open spec fn spec_reflected_dir(ray: Ray, normal: Unit) -> Unit {
    Unit {
        v: spec_vadd(
            ray.direction.v,
            spec_vscale(normal.v, spec_muln(spec_dot(ray.direction.v, normal.v), -2i64)),
        ),
    }
}

impl Ray {
    pub fn new(origin: Vector, direction: Unit, env: i64) -> (r: Ray)
        ensures
            r == (Ray { origin, direction, ior: env }),
    {
        Ray { origin, direction, ior: env }
    }

    /// Snell's-law refraction; returns `None` exactly when the discriminant
    /// is negative (total internal reflection).
    pub fn refracted_dir(&self, normal: &Unit, env_nu: i64) -> (res: Option<Unit>)
        ensures
            res == spec_refracted_dir(*self, *normal, env_nu),
    {
        let dot_prod: i64 = self.direction.dot(normal);
        let norm: Vector = if dot_prod >= 0 {
            normal.v.neg()
        } else {
            normal.v
        };
        let r: i64 = fx_div(self.ior, env_nu);
        let c: i64 = fx_neg(self.direction.dot_vec(&norm));
        let d: i64 = fx_sub(
            FX_ONE,
            fx_mul(fx_mul(r, r), fx_sub(FX_ONE, fx_mul(c, c))),
        );
        if d < 0 {
            None
        } else {
            Some(
                Unit::new_unchecked(
                    self.direction.scale(r).plus(&norm.scale(fx_sub(fx_mul(r, c), fx_sqrt(d)))),
                ),
            )
        }
    }

    /// Mirror reflection about `normal`.
    pub fn reflected_dir(&self, normal: &Unit) -> (res: Unit)
        ensures
            res == spec_reflected_dir(*self, *normal),
    {
        Unit::new_unchecked(
            self.direction.into_inner().plus(
                &normal.scale(fx_muln(self.direction.dot(normal), -2)),
            ),
        )
    }
}

} // verus!
