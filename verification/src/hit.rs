//! The result of a ray-primitive intersection query.

use vstd::prelude::*;

use crate::material::Material;
use crate::vector::{Unit, Vector};

verus! {

/// A surface hit: distance factor along the ray, world position, the struck
/// surface's material, and the outward unit normal. `Hit` is a transient
/// value, created and discarded per intersection test.
#[derive(Clone, Copy, PartialEq, Eq, Structural, Debug)]
pub struct Hit {
    pub factor: i64,
    pub pos: Vector,
    pub material: Material,
    pub normal: Unit,
}

impl Hit {
    pub fn new(factor: i64, pos: Vector, material: Material, normal: Unit) -> (h: Hit)
        ensures
            h == (Hit { factor, pos, material, normal }),
    {
        Hit { factor, pos, material, normal }
    }
}

} // verus!
