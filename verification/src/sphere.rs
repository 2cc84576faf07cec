//! Spheres, intersected by the closed-form quadratic.

use vstd::prelude::*;

use crate::fixed::{fx_divn, fx_mul, fx_muln, fx_neg, fx_sqrt, fx_sub, spec_divn, spec_mul,
    spec_muln, spec_neg, spec_sqrt, spec_sub};
use crate::hit::Hit;
use crate::material::Material;
use crate::model::Model;
use crate::ray::Ray;
use crate::vector::{spec_dot, spec_mag_sq, spec_unit_normalize, spec_vadd, spec_vscale, spec_vsub,
    Unit, Vector};

verus! {

#[derive(Clone, Copy, PartialEq, Eq, Structural, Debug)]
pub struct SphereModel {
    pub center: Vector,
    pub radius_sq: i64,
    pub material: Material,
}

/// The quadratic `|O + tD - C|^2 = r^2` with `a = 1` (unit direction): the
/// smaller root `t = (-b - sqrt(b^2 - 4c)) / 2` when the discriminant is
/// nonnegative; only a forward intersection (`t > 0`) counts as a hit.
pub open spec fn spec_sphere_hit(s: SphereModel, ray: Ray) -> Option<Hit> {
    let b = spec_muln(spec_dot(ray.direction.v, spec_vsub(ray.origin, s.center)), 2);
    let c = spec_sub(spec_mag_sq(spec_vsub(s.center, ray.origin)), s.radius_sq);
    let d = spec_sub(spec_mul(b, b), spec_muln(c, 4));
    if d < 0 {
        None
    } else {
        let t = spec_divn(spec_sub(spec_neg(b), spec_sqrt(d)), 2);
        if t <= 0 {
            None
        } else {
            let hit_pos = spec_vadd(ray.origin, spec_vscale(ray.direction.v, t));
            Some(
                Hit {
                    factor: t,
                    pos: hit_pos,
                    material: s.material,
                    normal: spec_unit_normalize(spec_vsub(hit_pos, s.center)),
                },
            )
        }
    }
}

impl SphereModel {
    pub fn new(center: Vector, radius: i64, material: Material) -> (s: SphereModel)
        ensures
            s == (SphereModel { center, radius_sq: spec_mul(radius, radius), material }),
    {
        SphereModel { center, radius_sq: fx_mul(radius, radius), material }
    }
}

impl Model for SphereModel {
    open spec fn hit_spec(&self, ray: Ray) -> Option<Hit> {
        spec_sphere_hit(*self, ray)
    }

    fn hit(&self, ray: &Ray) -> (r: Option<Hit>)
        ensures
            r == self.hit_spec(*ray),
    {
        let b: i64 = fx_muln(ray.direction.dot_vec(&ray.origin.minus(&self.center)), 2);
        let c: i64 = fx_sub(self.center.minus(&ray.origin).magnitude_squared(), self.radius_sq);
        let d: i64 = fx_sub(fx_mul(b, b), fx_muln(c, 4));
        if d < 0 {
            None
        } else {
            let t: i64 = fx_divn(fx_sub(fx_neg(b), fx_sqrt(d)), 2);
            if t <= 0 {
                None
            } else {
                let hit_pos: Vector = ray.origin.plus(&ray.direction.scale(t));
                Some(
                    Hit::new(
                        t,
                        hit_pos,
                        self.material,
                        Unit::new_normalize(hit_pos.minus(&self.center)),
                    ),
                )
            }
        }
    }
}

} // verus!
