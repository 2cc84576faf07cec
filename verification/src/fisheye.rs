//! A fisheye camera: pixel coordinates map linearly to view angles.

use vstd::prelude::*;

use crate::camera::{Camera, Dimensions};
use crate::fixed::{fx_add, fx_div, fx_divn, fx_from_int, fx_mul, fx_neg, spec_add, spec_div,
    spec_divn, spec_from_int, spec_mul, spec_neg, FX_ONE};
use crate::matrix::{spec_rot_y, spec_rot_z, Matrix};
use crate::ray::Ray;
use crate::vector::{Unit, Vector};

verus! {

#[derive(Clone, Copy, PartialEq, Eq, Structural, Debug)]
pub struct FishEyeCamera {
    pub pos: Vector,
    pub dir_angles: Vector,
    pub fov: i64,
    pub dimensions: Dimensions,
}

/// The ray of pixel `(col, row)`: the default forward direction rotated by
/// a per-column yaw and a per-row pitch, both linear in the pixel index
/// across the field of view.
pub open spec fn spec_fisheye_ray(c: FishEyeCamera, col: usize, row: usize) -> Ray {
    let fov_y = spec_mul(
        spec_div(c.fov, spec_from_int(c.dimensions.width as i64)),
        spec_from_int(c.dimensions.height as i64),
    );
    let lim_x = spec_neg(spec_divn(c.fov, 2));
    let lim_y = spec_neg(spec_divn(fov_y, 2));
    let delta_col = spec_div(c.fov, spec_from_int((c.dimensions.width - 1) as i64));
    let delta_row = spec_div(fov_y, spec_from_int((c.dimensions.height - 1) as i64));
    let matrix_yaw = spec_rot_z(
        spec_add(spec_add(c.dir_angles.z, lim_x), spec_mul(delta_col, spec_from_int(col as i64))),
    );
    let matrix_pitch = spec_rot_y(
        spec_add(spec_add(c.dir_angles.y, lim_y), spec_mul(delta_row, spec_from_int(row as i64))),
    );
    Ray {
        origin: c.pos,
        direction: crate::vector::spec_unit_normalize(
            crate::matrix::spec_mat_vec(
                matrix_pitch,
                crate::matrix::spec_mat_vec(matrix_yaw, Vector { x: 0, y: 0, z: -4294967296i64, w: 0 }),
            ),
        ),
        ior: FX_ONE,
    }
}

/// `None` exactly for pixel indices beyond the camera's dimensions.
pub open spec fn spec_fisheye_get_vector(c: FishEyeCamera, col: usize, row: usize) -> Option<Ray> {
    if col > c.dimensions.width || row > c.dimensions.height {
        None
    } else {
        Some(spec_fisheye_ray(c, col, row))
    }
}

impl FishEyeCamera {
    pub fn new(pos: Vector, yaw: i64, pitch: i64, fov: i64, dims: Dimensions) -> (c: FishEyeCamera)
        ensures
            c == (FishEyeCamera {
                pos,
                dir_angles: Vector { x: 0, y: pitch, z: yaw, w: 0 },
                fov,
                dimensions: dims,
            }),
    {
        FishEyeCamera { pos, dir_angles: Vector::new(0, pitch, yaw, 0), fov, dimensions: dims }
    }

    /// The ray of a pixel, or `None` beyond the camera's dimensions.
    pub fn get_vector(&self, col: usize, row: usize) -> (r: Option<Ray>)
        requires
            self.dimensions.width >= 1,
            self.dimensions.height >= 1,
        ensures
            r == spec_fisheye_get_vector(*self, col, row),
    {
        if (col > self.dimensions.width) || (row > self.dimensions.height) {
            return None;
        }
        let fov_y: i64 = fx_mul(
            fx_div(self.fov, fx_from_int(self.dimensions.width as i64)),
            fx_from_int(self.dimensions.height as i64),
        );
        let lim_x: i64 = fx_neg(fx_divn(self.fov, 2));
        let lim_y: i64 = fx_neg(fx_divn(fov_y, 2));
        let delta_col: i64 = fx_div(self.fov, fx_from_int((self.dimensions.width - 1) as i64));
        let delta_row: i64 = fx_div(fov_y, fx_from_int((self.dimensions.height - 1) as i64));
        let matrix_yaw: Matrix = Matrix::rotation_z(
            fx_add(fx_add(self.dir_angles.z, lim_x), fx_mul(delta_col, fx_from_int(col as i64))),
        );
        let matrix_pitch: Matrix = Matrix::rotation_y(
            fx_add(fx_add(self.dir_angles.y, lim_y), fx_mul(delta_row, fx_from_int(row as i64))),
        );
        Some(
            Ray::new(
                self.pos,
                Unit::new_normalize(
                    matrix_pitch.mul_vec(&matrix_yaw.mul_vec(&Vector::new(0, 0, -FX_ONE, 0))),
                ),
                FX_ONE,
            ),
        )
    }
}

impl Camera for FishEyeCamera {
    open spec fn gen_ray_spec(&self, u: usize, v: usize) -> Ray {
        spec_fisheye_ray(*self, u, v)
    }

    open spec fn dims_spec(&self) -> Dimensions {
        self.dimensions
    }

    fn gen_ray(&self, u: usize, v: usize) -> (r: Ray)
        ensures
            r == self.gen_ray_spec(u, v),
    {
        let res: Option<Ray> = self.get_vector(u, v);
        res.unwrap()
    }

    fn get_dimensions(&self) -> (d: Dimensions)
        ensures
            d == self.dims_spec(),
    {
        self.dimensions
    }
}

} // verus!
