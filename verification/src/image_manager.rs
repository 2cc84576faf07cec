//! Block-based image synthesis drivers.
//!
//! The flattened pixel range `[0, width*height)` is partitioned into
//! contiguous blocks; each block renders into a private buffer (camera and
//! renderer are shared read-only), and the buffers are concatenated in the
//! blocks' original index order.

use vstd::prelude::*;

use rayon::iter::{IntoParallelRefIterator, ParallelIterator};

use crate::camera::{Camera, Dimensions};
use crate::color::{Rgb, RgbIntensity};
use crate::image_generator::{render_all, spec_grid_fits, spec_pixel_at, spec_raster_matches,
    Raster};
use crate::ray::Ray;
use crate::renderer::Renderer;

verus! {

/// Turns a camera and a renderer into a raster image (the block drivers'
/// interface; same contract as `ImageGenerator`).
pub trait Manager<C: Camera, R: Renderer>: Sized {
    /// Whether this manager's own configuration is usable.
    spec fn wf(&self) -> bool;

    fn create(&self, camera: &C, renderer: &R) -> (r: Raster)
        requires
            self.wf(),
            spec_grid_fits(camera.dims_spec()),
        ensures
            spec_raster_matches(*camera, *renderer, r),
    ;
}

/// One contiguous range of the flattened pixel grid, described by its
/// starting column and row and its length.
#[derive(Clone, Copy, PartialEq, Eq, Structural, Debug)]
pub struct Block {
    pub size: usize,
    pub x: usize,
    pub y: usize,
    pub dimensions: Dimensions,
}

/// The flat index a block starts at.
pub open spec fn spec_block_start(b: Block) -> int {
    b.y * b.dimensions.width + b.x
}

/// The block starts at a real pixel of `camera`'s grid and ends within it.
pub open spec fn spec_block_wf<C: Camera>(b: Block, camera: C) -> bool {
    &&& b.dimensions == camera.dims_spec()
    &&& b.x < b.dimensions.width
    &&& spec_block_start(b) + b.size <= b.dimensions.width * b.dimensions.height
}

/// The pixels a block must produce: `size` consecutive row-major entries
/// from its starting index.
pub open spec fn spec_block_pixels<C: Camera, R: Renderer>(
    b: Block,
    camera: C,
    renderer: R,
) -> Seq<[u8; 3]> {
    Seq::new(
        b.size as nat,
        |i: int|
            spec_pixel_at(
                camera,
                renderer,
                ((spec_block_start(b) + i) % (b.dimensions.width as int)) as usize,
                ((spec_block_start(b) + i) / (b.dimensions.width as int)) as usize,
            ),
    )
}

impl Block {
    pub fn new(size: usize, x: usize, y: usize, dimensions: Dimensions) -> (b: Block)
        ensures
            b == (Block { size, x, y, dimensions }),
    {
        Block { size, x, y, dimensions }
    }

    /// Render this block's pixels into a private buffer, walking the grid
    /// row-major from the block's starting pixel.
    pub fn run<C: Camera, R: Renderer>(&self, camera: &C, renderer: &R) -> (r: Vec<[u8; 3]>)
        requires
            spec_block_wf(*self, *camera),
        ensures
            r@ == spec_block_pixels(*self, *camera, *renderer),
    {
        let w: usize = self.dimensions.width;
        let ghost start: int = spec_block_start(*self);
        let mut buffer: Vec<[u8; 3]> = Vec::new();
        let mut x: usize = self.x;
        let mut y: usize = self.y;
        let mut i: usize = 0;
        while i < self.size
            invariant
                i <= self.size,
                w == self.dimensions.width,
                spec_block_wf(*self, *camera),
                x < w,
                y * w + x == start + i,
                start == spec_block_start(*self),
                buffer@.len() == i,
                forall|j: int|
                    0 <= j < i ==> buffer@[j] == spec_pixel_at(
                        *camera,
                        *renderer,
                        ((start + j) % (w as int)) as usize,
                        ((start + j) / (w as int)) as usize,
                    ),
            decreases self.size - i,
        {
            proof {
                vstd::arithmetic::div_mod::lemma_fundamental_div_mod_converse(
                    start + i,
                    w as int,
                    y as int,
                    x as int,
                );
                assert(start + i < w * self.dimensions.height) by (nonlinear_arith)
                    requires
                        start + self.size <= self.dimensions.width * self.dimensions.height,
                        i < self.size,
                        w == self.dimensions.width,
                ;
                assert(y < self.dimensions.height) by (nonlinear_arith)
                    requires
                        y * w + x == start + i,
                        start + i < w * self.dimensions.height,
                        0 <= x,
                        w > 0,
                        y >= 0,
                ;
            }
            let ray: Ray = camera.gen_ray(x, y);
            let col: RgbIntensity = renderer.cast(&ray);
            buffer.push(Rgb(col).to_pixel());
            x = x + 1;
            if x == self.dimensions.width {
                x = 0;
                proof {
                    assert((y + 1) * w == y * w + w) by (nonlinear_arith);
                }
                y = y + 1;
            }
            i = i + 1;
        }
        proof {
            assert(buffer@ =~= spec_block_pixels(*self, *camera, *renderer));
        }
        buffer
    }
}

/// Relies on rayon's `par_iter().map(..).collect()`: the thread pool applies
/// the closure (which only calls the verified [`Block::run`]) to every block
/// and collects the per-block buffers in the blocks' original order.
#[verifier::external_body]
fn par_run_blocks<C: Camera + Sync, R: Renderer + Sync>(
    blocks: &Vec<Block>,
    camera: &C,
    renderer: &R,
) -> (out: Vec<Vec<[u8; 3]>>)
    requires
        forall|i: int| 0 <= i < blocks@.len() ==> spec_block_wf(#[trigger] blocks@[i], *camera),
    ensures
        out@.len() == blocks@.len(),
        forall|i: int|
            0 <= i < blocks@.len() ==> (#[trigger] out@[i])@ == spec_block_pixels(
                blocks@[i],
                *camera,
                *renderer,
            ),
{
    blocks.par_iter().map(|b| b.run(camera, renderer)).collect()
}

/// Render `count` blocks of `bs` pixels each, plus one leftover block with
/// whatever remains, on the thread pool, and reassemble them in order.
pub(crate) fn render_partition<C: Camera + Sync, R: Renderer + Sync>(
    bs: usize,
    count: usize,
    camera: &C,
    renderer: &R,
) -> (r: Raster)
    requires
        spec_grid_fits(camera.dims_spec()),
        bs * count <= camera.dims_spec().width * camera.dims_spec().height,
    ensures
        spec_raster_matches(*camera, *renderer, r),
{
    let dims: Dimensions = camera.get_dimensions();
    let total: usize = dims.width * dims.height;
    if total == 0 {
        return Raster { width: dims.width, height: dims.height, pixels: Vec::new() };
    }
    assert(dims.width >= 1) by (nonlinear_arith)
        requires
            dims.width * dims.height > 0,
    ;
    let w: usize = dims.width;
    let mut blocks: Vec<Block> = Vec::new();
    let mut start: usize = 0;
    let mut i: usize = 0;
    while i < count
        invariant
            i <= count,
            start == bs * i,
            bs * count <= total,
            total == dims.width * dims.height,
            dims == camera.dims_spec(),
            w == dims.width,
            w >= 1,
            blocks@.len() == i,
            forall|j: int|
                0 <= j < i ==> {
                    &&& spec_block_wf(#[trigger] blocks@[j], *camera)
                    &&& spec_block_start(blocks@[j]) == bs * j
                    &&& blocks@[j].size == bs
                    &&& blocks@[j].dimensions == dims
                },
        decreases count - i,
    {
        proof {
            assert(bs * i + bs == bs * (i + 1) && bs * (i + 1) <= bs * count) by (nonlinear_arith)
                requires
                    i < count,
            ;
            vstd::arithmetic::div_mod::lemma_fundamental_div_mod(start as int, w as int);
            vstd::arithmetic::div_mod::lemma_remainder_lower(start as int, w as int);
            vstd::arithmetic::div_mod::lemma_remainder_upper(start as int, w as int);
        }
        let b: Block = Block::new(bs, start % w, start / w, dims);
        proof {
            assert(spec_block_start(b) == (start as int) / (w as int) * (w as int) + (start as int)
                % (w as int));
        }
        blocks.push(b);
        start = start + bs;
        i = i + 1;
    }
    proof {
        vstd::arithmetic::div_mod::lemma_fundamental_div_mod(start as int, w as int);
        vstd::arithmetic::div_mod::lemma_remainder_lower(start as int, w as int);
        vstd::arithmetic::div_mod::lemma_remainder_upper(start as int, w as int);
    }
    let leftover: Block = Block::new(total - start, start % w, start / w, dims);
    let ghost pre: Seq<Block> = blocks@;
    proof {
        assert(spec_block_start(leftover) == (start as int) / (w as int) * (w as int) + (
        start as int) % (w as int));
    }
    blocks.push(leftover);
    proof {
        assert forall|q: int| 0 <= q < blocks@.len() implies {
            &&& spec_block_start(#[trigger] blocks@[q]) == bs * q
            &&& (q < blocks@.len() - 1 ==> blocks@[q].size == bs)
            &&& blocks@[q].dimensions == dims
        } by {
            if q < blocks@.len() - 1 {
                assert(blocks@[q] == pre[q]);
            } else {
                assert(blocks@[q] == leftover);
            }
        }
    }
    let out: Vec<Vec<[u8; 3]>> = par_run_blocks(&blocks, camera, renderer);
    let mut pixels: Vec<[u8; 3]> = Vec::new();
    let n: usize = blocks.len();
    let mut j: usize = 0;
    while j < n
        invariant
            j <= n,
            n == blocks@.len(),
            n == count + 1,
            out@.len() == n,
            total == dims.width * dims.height,
            dims == camera.dims_spec(),
            w == dims.width,
            forall|q: int|
                0 <= q < n ==> {
                    &&& spec_block_start(#[trigger] blocks@[q]) == bs * q
                    &&& (q < n - 1 ==> blocks@[q].size == bs)
                    &&& blocks@[q].dimensions == dims
                },
            blocks@[n - 1].size == total - bs * count,
            forall|q: int|
                0 <= q < n ==> (#[trigger] out@[q])@ == spec_block_pixels(
                    blocks@[q],
                    *camera,
                    *renderer,
                ),
            j < n ==> pixels@.len() == bs * j,
            j == n ==> pixels@.len() == total,
            forall|p: int|
                0 <= p < pixels@.len() ==> pixels@[p] == spec_pixel_at(
                    *camera,
                    *renderer,
                    (p % (w as int)) as usize,
                    (p / (w as int)) as usize,
                ),
        decreases n - j,
    {
        let m: usize = out[j].len();
        proof {
            assert(m == blocks@[j as int].size);
        }
        let ghost bstart: int = spec_block_start(blocks@[j as int]);
        let mut k: usize = 0;
        while k < m
            invariant
                k <= m,
                j < n,
                n == blocks@.len(),
                out@.len() == n,
                m == blocks@[j as int].size,
                bstart == spec_block_start(blocks@[j as int]),
                blocks@[j as int].dimensions == dims,
                w == dims.width,
                dims == camera.dims_spec(),
                (out@[j as int])@ == spec_block_pixels(blocks@[j as int], *camera, *renderer),
                pixels@.len() == bstart + k,
                forall|p: int|
                    0 <= p < pixels@.len() ==> pixels@[p] == spec_pixel_at(
                        *camera,
                        *renderer,
                        (p % (w as int)) as usize,
                        (p / (w as int)) as usize,
                    ),
            decreases m - k,
        {
            let px: [u8; 3] = out[j][k];
            proof {
                assert((out@[j as int])@[k as int] == spec_block_pixels(
                    blocks@[j as int],
                    *camera,
                    *renderer,
                )[k as int]);
            }
            pixels.push(px);
            k = k + 1;
        }
        proof {
            assert(bs * j + blocks@[j as int].size == bs * (j + 1) || j == n - 1)
                by (nonlinear_arith)
                requires
                    j < n,
                    j < n - 1 ==> blocks@[j as int].size == bs,
                    spec_block_start(blocks@[j as int]) == bs * j,
            ;
            if j + 1 < n {
                assert(pixels@.len() == bs * (j + 1));
            } else {
                assert(pixels@.len() == bs * (n - 1) + (total - bs * count));
                assert(bs * (n - 1) == bs * count);
                assert(pixels@.len() == total);
            }
        }
        j = j + 1;
    }
    Raster { width: dims.width, height: dims.height, pixels }
}

/// Renders every pixel on the calling thread.
#[derive(Clone, Copy, PartialEq, Eq, Structural, Debug)]
pub struct OneThreaded {}

impl<C: Camera, R: Renderer> Manager<C, R> for OneThreaded {
    open spec fn wf(&self) -> bool {
        true
    }

    fn create(&self, camera: &C, renderer: &R) -> (r: Raster)
        ensures
            spec_raster_matches(*camera, *renderer, r),
    {
        render_all(camera, renderer)
    }
}

/// Partitions the grid into one block per worker.
#[derive(Clone, Copy, PartialEq, Eq, Structural, Debug)]
pub struct MultiThread {
    pub thread_count: usize,
}

impl<C: Camera + Sync, R: Renderer + Sync> Manager<C, R> for MultiThread {
    open spec fn wf(&self) -> bool {
        self.thread_count >= 1
    }

    fn create(&self, camera: &C, renderer: &R) -> (r: Raster)
        ensures
            spec_raster_matches(*camera, *renderer, r),
    {
        let dims: Dimensions = camera.get_dimensions();
        let total: usize = dims.width * dims.height;
        let block_size: usize = total / self.thread_count;
        proof {
            vstd::arithmetic::div_mod::lemma_fundamental_div_mod(
                total as int,
                self.thread_count as int,
            );
            vstd::arithmetic::div_mod::lemma_remainder_lower(total as int, self.thread_count as int);
        }
        render_partition(block_size, self.thread_count, camera, renderer)
    }
}

/// Renders blocks of `size` pixels on the thread pool (the manager-side
/// twin of the generator's block driver).
#[derive(Clone, Copy, PartialEq, Eq, Structural, Debug)]
pub struct Library {
    pub size: usize,
}

impl Library {
    pub fn new(size: usize) -> (r: Library)
        ensures
            r == (Library { size }),
    {
        Library { size }
    }
}

impl<C: Camera + Sync, R: Renderer + Sync> Manager<C, R> for Library {
    open spec fn wf(&self) -> bool {
        self.size >= 1
    }

    fn create(&self, camera: &C, renderer: &R) -> (r: Raster)
        ensures
            spec_raster_matches(*camera, *renderer, r),
    {
        let dims: Dimensions = camera.get_dimensions();
        let total: usize = dims.width * dims.height;
        let count: usize = total / self.size;
        proof {
            vstd::arithmetic::div_mod::lemma_fundamental_div_mod(total as int, self.size as int);
            vstd::arithmetic::div_mod::lemma_remainder_lower(total as int, self.size as int);
        }
        render_partition(self.size, count, camera, renderer)
    }
}

} // verus!
