//! The light-transport strategy interface.

use vstd::prelude::*;

use crate::color::RgbIntensity;
use crate::ray::Ray;

verus! {

/// A renderer strategy: the intensity a camera ray observes in a scene.
/// Each implementor describes its light-transport algorithm with a spec
/// function and proves `cast` equal to it; every strategy is therefore a
/// deterministic, total function of the ray and the renderer's own state.
pub trait Renderer: Sized {
    /// The intensity this strategy computes for `ray`.
    spec fn cast_spec(&self, ray: Ray) -> RgbIntensity;

    fn cast(&self, ray: &Ray) -> (c: RgbIntensity)
        ensures
            c == self.cast_spec(*ray),
    ;
}

} // verus!
