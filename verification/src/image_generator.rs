//! Image synthesis: a camera and a renderer become a raster image.
//!
//! The pixel grid is flattened row-major. The drivers here either walk it
//! directly ([`OneThreaded`]) or hand contiguous blocks of it to a thread
//! pool ([`Library`]); blocks are reassembled in their original index order,
//! so the final image never depends on completion order.

use vstd::prelude::*;

use crate::camera::{Camera, Dimensions};
use crate::color::{spec_to_pixel, Rgb, RgbIntensity};
use crate::ray::Ray;
use crate::renderer::Renderer;

verus! {

/// A row-major raster of 8-bit RGB pixels.
#[derive(Clone, Debug)]
pub struct Raster {
    pub width: usize,
    pub height: usize,
    pub pixels: Vec<[u8; 3]>,
}

/// The display pixel that `renderer` and `camera` assign to `(x, y)`.
pub open spec fn spec_pixel_at<C: Camera, R: Renderer>(
    camera: C,
    renderer: R,
    x: usize,
    y: usize,
) -> [u8; 3] {
    spec_to_pixel(renderer.cast_spec(camera.gen_ray_spec(x, y)))
}

/// The raster is exactly the camera's grid, row-major: entry `i` is the
/// pixel of column `i % width`, row `i / width`.
pub open spec fn spec_raster_matches<C: Camera, R: Renderer>(
    camera: C,
    renderer: R,
    r: Raster,
) -> bool {
    &&& r.width == camera.dims_spec().width
    &&& r.height == camera.dims_spec().height
    &&& r.pixels@.len() == r.width * r.height
    &&& forall|i: int|
        0 <= i < r.pixels@.len() ==> r.pixels@[i] == spec_pixel_at(
            camera,
            renderer,
            (i % (r.width as int)) as usize,
            (i / (r.width as int)) as usize,
        )
}

/// The camera's whole grid fits in one flat index space.
pub open spec fn spec_grid_fits(d: Dimensions) -> bool {
    d.width * d.height <= usize::MAX
}

/// Turns a camera and a renderer into a raster image.
pub trait ImageGenerator<C: Camera, R: Renderer>: Sized {
    /// Whether this generator's own configuration is usable.
    spec fn wf(&self) -> bool;

    fn create(&self, camera: &C, renderer: &R) -> (r: Raster)
        requires
            self.wf(),
            spec_grid_fits(camera.dims_spec()),
        ensures
            spec_raster_matches(*camera, *renderer, r),
    ;
}

/// Render the whole grid on the calling thread, row-major.
pub(crate) fn render_all<C: Camera, R: Renderer>(camera: &C, renderer: &R) -> (r: Raster)
    requires
        spec_grid_fits(camera.dims_spec()),
    ensures
        spec_raster_matches(*camera, *renderer, r),
{
    let dims: Dimensions = camera.get_dimensions();
    let total: usize = dims.width * dims.height;
    let mut pixels: Vec<[u8; 3]> = Vec::new();
    let mut i: usize = 0;
    while i < total
        invariant
            i <= total,
            total == dims.width * dims.height,
            dims == camera.dims_spec(),
            pixels@.len() == i,
            forall|j: int|
                0 <= j < i ==> pixels@[j] == spec_pixel_at(
                    *camera,
                    *renderer,
                    (j % (dims.width as int)) as usize,
                    (j / (dims.width as int)) as usize,
                ),
        decreases total - i,
    {
        proof {
            assert(dims.width > 0) by (nonlinear_arith)
                requires
                    i < dims.width * dims.height,
                    i >= 0,
            ;
            vstd::arithmetic::div_mod::lemma_fundamental_div_mod(i as int, dims.width as int);
            vstd::arithmetic::div_mod::lemma_remainder_lower(i as int, dims.width as int);
            vstd::arithmetic::div_mod::lemma_remainder_upper(i as int, dims.width as int);
            assert((i as int) / (dims.width as int) < dims.height) by (nonlinear_arith)
                requires
                    i < dims.width * dims.height,
                    dims.width > 0,
                    (i as int) / (dims.width as int) * (dims.width as int) + (i as int) % (
                    dims.width as int) == i as int,
                    0 <= (i as int) % (dims.width as int) < dims.width as int,
            ;
        }
        let x: usize = i % dims.width;
        let y: usize = i / dims.width;
        let ray: Ray = camera.gen_ray(x, y);
        let col: RgbIntensity = renderer.cast(&ray);
        pixels.push(Rgb(col).to_pixel());
        i = i + 1;
    }
    Raster { width: dims.width, height: dims.height, pixels }
}

/// Renders every pixel on the calling thread.
#[derive(Clone, Copy, PartialEq, Eq, Structural, Debug)]
pub struct OneThreaded {}

impl<C: Camera, R: Renderer> ImageGenerator<C, R> for OneThreaded {
    open spec fn wf(&self) -> bool {
        true
    }

    fn create(&self, camera: &C, renderer: &R) -> (r: Raster)
        ensures
            spec_raster_matches(*camera, *renderer, r),
    {
        render_all(camera, renderer)
    }
}

/// Renders blocks of `size` pixels on a thread pool.
#[derive(Clone, Copy, PartialEq, Eq, Structural, Debug)]
pub struct Library {
    pub size: usize,
}

impl Library {
    pub fn new(size: usize) -> (r: Library)
        ensures
            r == (Library { size }),
    {
        Library { size }
    }
}

impl<C: Camera + Sync, R: Renderer + Sync> ImageGenerator<C, R> for Library {
    open spec fn wf(&self) -> bool {
        self.size >= 1
    }

    fn create(&self, camera: &C, renderer: &R) -> (r: Raster)
        ensures
            spec_raster_matches(*camera, *renderer, r),
    {
        let dims: Dimensions = camera.get_dimensions();
        let total: usize = dims.width * dims.height;
        let count: usize = total / self.size;
        proof {
            vstd::arithmetic::div_mod::lemma_fundamental_div_mod(total as int, self.size as int);
            vstd::arithmetic::div_mod::lemma_remainder_lower(total as int, self.size as int);
        }
        crate::image_manager::render_partition(self.size, count, camera, renderer)
    }
}


/// Deterministic reproducibility: a render is a pure function of the camera
/// and the renderer, so two rasters produced for the same pair are
/// pixel-identical. For the stochastic path tracer the renderer value
/// carries the master seed, so "same seed, same scene" means "same
/// renderer", and two such renders agree pixel for pixel whichever driver
/// produced them: every driver's contract pins every pixel to the same
/// row-major value.
pub proof fn lemma_render_deterministic<C: Camera, R: Renderer>(
    camera: C,
    renderer: R,
    r1: Raster,
    r2: Raster,
)
    requires
        spec_raster_matches(camera, renderer, r1),
        spec_raster_matches(camera, renderer, r2),
    ensures
        r1.width == r2.width,
        r1.height == r2.height,
        r1.pixels@ == r2.pixels@,
{
    assert(r1.pixels@ =~= r2.pixels@);
}

} // verus!

