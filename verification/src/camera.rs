//! The camera interface: pixel coordinates to world-space rays.

use vstd::prelude::*;

use crate::ray::Ray;

verus! {

/// Output raster dimensions in pixels.
#[derive(Clone, Copy, PartialEq, Eq, Structural, Debug)]
pub struct Dimensions {
    pub width: usize,
    pub height: usize,
}

/// Maps pixel coordinates to world-space rays. Each implementor describes
/// its projection with a spec function and proves `gen_ray` equal to it.
pub trait Camera: Sized {
    /// The ray this camera generates for pixel `(u, v)`.
    spec fn gen_ray_spec(&self, u: usize, v: usize) -> Ray;

    /// The camera's output dimensions.
    spec fn dims_spec(&self) -> Dimensions;

    fn gen_ray(&self, u: usize, v: usize) -> (r: Ray)
        requires
            u < self.dims_spec().width,
            v < self.dims_spec().height,
        ensures
            r == self.gen_ray_spec(u, v),
    ;

    fn get_dimensions(&self) -> (d: Dimensions)
        ensures
            d == self.dims_spec(),
    ;
}

} // verus!
