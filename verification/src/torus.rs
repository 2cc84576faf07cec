//! A torus, intersected by coarse fixed-step ray marching.

use vstd::prelude::*;

use crate::fixed::{fx_add, fx_mul, fx_muln, fx_sub, spec_add, spec_mul, spec_muln, spec_sub};
use crate::hit::Hit;
use crate::material::Material;
use crate::model::Model;
use crate::ray::Ray;
use crate::vector::{spec_mag_sq, spec_unit_normalize, spec_vadd, spec_vnormalize, spec_vscale,
    spec_vsub, Unit, Vector};

verus! {

/// The marching step length (0.05 world units).
pub const TORUS_STEP: i64 = 214748365;

/// How many steps are marched before the torus counts as missed.
pub const TORUS_STEPS: u32 = 60;

/// A torus around the vertical axis at the origin: major radius `r`, minor
/// radius `k`.
#[derive(Clone, Copy, PartialEq, Eq, Structural, Debug)]
pub struct TorusModel {
    pub r: i64,
    pub k: i64,
    pub material: Material,
}

/// Whether a point satisfies the torus's implicit inequality
/// `(|p|^2 + r^2 - k^2)^2 < 4 r^2 (px^2 + py^2)`.
pub open spec fn spec_torus_inside(tm: TorusModel, p: Vector) -> bool {
    let q = spec_sub(spec_add(spec_mag_sq(p), spec_mul(tm.r, tm.r)), spec_mul(tm.k, tm.k));
    let lhs = spec_mul(q, q);
    let rhs = spec_mul(
        spec_muln(spec_mul(tm.r, tm.r), 4),
        spec_add(spec_mul(p.x, p.x), spec_mul(p.y, p.y)),
    );
    lhs < rhs
}

/// The fixed-step march from step `i`: the first step whose sample point
/// satisfies the implicit inequality is reported as the hit, with the
/// approximate normal pointing along the sample's vertical offset. This
/// coarse, non-distance-accurate search can miss thin intersections; it is
/// kept as the deliberate behavior of this primitive.
pub open spec fn spec_torus_march(tm: TorusModel, ray: Ray, dir: Vector, i: nat) -> Option<Hit>
    decreases TORUS_STEPS - i,
{
    if i >= TORUS_STEPS {
        None
    } else {
        let t = spec_muln(TORUS_STEP, i as i64);
        let p = spec_vadd(ray.origin, spec_vscale(dir, t));
        if spec_torus_inside(tm, p) {
            Some(
                Hit {
                    factor: t,
                    pos: p,
                    material: tm.material,
                    normal: spec_unit_normalize(
                        spec_vsub(p, spec_vsub(p, Vector { x: 0, y: 0, z: p.z, w: 0 })),
                    ),
                },
            )
        } else {
            spec_torus_march(tm, ray, dir, i + 1)
        }
    }
}

pub open spec fn spec_torus_hit(tm: TorusModel, ray: Ray) -> Option<Hit> {
    spec_torus_march(tm, ray, spec_vnormalize(ray.direction.v), 0)
}

impl TorusModel {
    pub fn new(r: i64, k: i64, material: Material) -> (t: TorusModel)
        ensures
            t == (TorusModel { r, k, material }),
    {
        TorusModel { r, k, material }
    }

    fn march(&self, ray: &Ray, dir: &Vector, i: u32) -> (h: Option<Hit>)
        requires
            i <= TORUS_STEPS,
        ensures
            h == spec_torus_march(*self, *ray, *dir, i as nat),
        decreases TORUS_STEPS - i,
    {
        if i >= TORUS_STEPS {
            return None;
        }
        let t: i64 = fx_muln(TORUS_STEP, i as i64);
        let p: Vector = ray.origin.plus(&dir.scale(t));
        let q: i64 = fx_sub(fx_add(p.magnitude_squared(), fx_mul(self.r, self.r)), fx_mul(self.k, self.k));
        let lhs: i64 = fx_mul(q, q);
        let rhs: i64 = fx_mul(
            fx_muln(fx_mul(self.r, self.r), 4),
            fx_add(fx_mul(p.x, p.x), fx_mul(p.y, p.y)),
        );
        if lhs < rhs {
            Some(
                Hit::new(
                    t,
                    p,
                    self.material,
                    Unit::new_normalize(p.minus(&p.minus(&Vector::new(0, 0, p.z, 0)))),
                ),
            )
        } else {
            self.march(ray, dir, i + 1)
        }
    }
}

impl Model for TorusModel {
    open spec fn hit_spec(&self, ray: Ray) -> Option<Hit> {
        spec_torus_hit(*self, ray)
    }

    fn hit(&self, ray: &Ray) -> (r: Option<Hit>)
        ensures
            r == self.hit_spec(*ray),
    {
        let dir: Vector = ray.direction.v.normalize();
        self.march(ray, &dir, 0)
    }
}

} // verus!
