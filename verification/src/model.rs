//! The primitive interface and the transform capabilities of scene objects.

use vstd::prelude::*;

use crate::hit::Hit;
use crate::ray::Ray;
use crate::vector::Vector;

verus! {

/// A hittable primitive: resolves a ray to its nearest forward intersection,
/// or none. Each implementor describes the result with its own spec function
/// and proves its query equal to it.
pub trait Model: Sized {
    /// The mathematical description of this primitive's intersection query.
    spec fn hit_spec(&self, ray: Ray) -> Option<Hit>;

    /// The intersection query itself; no side effects.
    fn hit(&self, ray: &Ray) -> (r: Option<Hit>)
        ensures
            r == self.hit_spec(*ray),
    ;
}

/// Translation capability, consumed by the interactive layer.
pub trait Move: Sized {
    /// The value after `set_position`.
    spec fn with_position(self, position: Vector) -> Self;

    /// The value after `reposition_by`.
    spec fn with_reposition(self, pos: Vector) -> Self;

    fn set_position(&mut self, position: Vector)
        ensures
            *final(self) == old(self).with_position(position),
    ;

    /// Translate along the object's own (rotated) basis.
    fn reposition_by(&mut self, pos: &Vector)
        ensures
            *final(self) == old(self).with_reposition(*pos),
    ;
}

/// Rotation capability, consumed by the interactive layer. Angles are
/// fixed-point radians.
pub trait Rotate: Sized {
    /// The value after `set_rotation`.
    spec fn with_rotation(self, pitch: i64, yaw: i64, roll: i64) -> Self;

    /// The value after `rotate_by`.
    spec fn with_rotate_by(self, pitch: i64, yaw: i64, roll: i64) -> Self;

    fn set_rotation(&mut self, pitch: i64, yaw: i64, roll: i64)
        ensures
            *final(self) == old(self).with_rotation(pitch, yaw, roll),
    ;

    fn rotate_by(&mut self, pitch: i64, yaw: i64, roll: i64)
        ensures
            *final(self) == old(self).with_rotate_by(pitch, yaw, roll),
    ;
}

/// Scaling capability; no primitive implements it yet.
pub trait Scale {

}

} // verus!
