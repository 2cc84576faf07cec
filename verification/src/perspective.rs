//! The perspective camera: pixel coordinates to world rays under a
//! perspective projection, with reposition/rotate capabilities for the
//! interactive layer.

use vstd::prelude::*;

use crate::camera::{Camera, Dimensions};
use crate::fixed::{fx_add, fx_div, fx_divn, fx_from_int, fx_mul, fx_neg, fx_sqrt, fx_sub,
    spec_add, spec_div, spec_divn, spec_from_int, spec_mul, spec_neg, spec_sqrt, spec_sub, FX_ONE};
use crate::matrix::{spec_mat_mul, spec_mat_vec, spec_rot_x, spec_rot_z, Matrix};
use crate::model::{Move, Rotate};
use crate::ray::Ray;
use crate::trig::{fx_acos, fx_tan, spec_acos, spec_tan};
use crate::vector::{spec_dot, spec_unit_normalize, spec_vadd, spec_vsub, Unit, Vector};

verus! {

/// Pitch/yaw/roll angles with the two cached rotation matrices derived from
/// them. The matrices are computed at construction and refreshed by
/// `rotate_by`; `set_rotation` records new angles only.
#[derive(Clone, Copy, PartialEq, Eq, Structural, Debug)]
pub struct Rotation {
    pub pitch: i64,
    pub yaw: i64,
    pub roll: i64,
    pub yaw_matrix: Matrix,
    pub pitch_matrix: Matrix,
}

/// The value of a freshly constructed rotation state.
pub open spec fn spec_rotation_new(pitch: i64, yaw: i64, roll: i64) -> Rotation {
    Rotation { pitch, yaw, roll, yaw_matrix: spec_rot_z(yaw), pitch_matrix: spec_rot_x(pitch) }
}

impl Rotation {
    pub fn new(pitch: i64, yaw: i64, roll: i64) -> (r: Rotation)
        ensures
            r == spec_rotation_new(pitch, yaw, roll),
    {
        Rotation {
            pitch,
            yaw,
            roll,
            yaw_matrix: Matrix::rotation_z(yaw),
            pitch_matrix: Matrix::rotation_x(pitch),
        }
    }

    /// The combined matrix of a yaw (about z, taken from `axes.z`) applied
    /// after a pitch (about x, taken from `axes.x`).
    pub fn rotation_matrix(axes: &Vector) -> (r: Matrix)
        ensures
            r == spec_mat_mul(spec_rot_z(axes.z), spec_rot_x(axes.x)),
    {
        Matrix::rotation_z(axes.z).mul_mat(&Matrix::rotation_x(axes.x))
    }

    /// Record new angles; the cached matrices are left as they are and
    /// refresh on the next `rotate_by`.
    pub fn set_rotation(&mut self, pitch: i64, yaw: i64, roll: i64)
        ensures
            *final(self) == (Rotation {
                pitch,
                yaw,
                roll,
                yaw_matrix: old(self).yaw_matrix,
                pitch_matrix: old(self).pitch_matrix,
            }),
    {
        self.yaw = yaw;
        self.pitch = pitch;
        self.roll = roll;
    }

    /// Add deltas to the angles and recompute both cached matrices.
    pub fn rotate_by(&mut self, pitch: i64, yaw: i64, roll: i64)
        ensures
            *final(self) == spec_rotation_new(
                spec_add(old(self).pitch, pitch),
                spec_add(old(self).yaw, yaw),
                spec_add(old(self).roll, roll),
            ),
    {
        self.yaw = fx_add(self.yaw, yaw);
        self.pitch = fx_add(self.pitch, pitch);
        self.roll = fx_add(self.roll, roll);
        self.yaw_matrix = Matrix::rotation_z(self.yaw);
        self.pitch_matrix = Matrix::rotation_x(self.pitch);
    }
}

/// The camera's default forward direction, along negative z.
pub open spec fn spec_default_dir() -> Unit {
    Unit { v: Vector { x: 0, y: 0, z: -4294967296i64, w: 0 } }
}

/// The pitch and yaw under which the default forward direction maps to
/// `dir`: `pitch = acos(dir . forward)`, `yaw = acos(dir.y / sqrt(1 - z^2))`
/// sign-corrected by the sideways component.
pub open spec fn spec_define_angles(dir: Unit) -> (i64, i64) {
    let yaw0 = spec_acos(
        spec_div(
            spec_dot(dir.v, Vector { x: 0, y: FX_ONE, z: 0, w: 0 }),
            spec_sqrt(spec_sub(FX_ONE, spec_mul(dir.v.z, dir.v.z))),
        ),
    );
    let yaw = if spec_dot(dir.v, Vector { x: FX_ONE, y: 0, z: 0, w: 0 }) > 0 {
        spec_neg(yaw0)
    } else {
        yaw0
    };
    let pitch = spec_acos(spec_dot(spec_default_dir().v, dir.v));
    (pitch, yaw)
}

/// The point on the unit-distance image plane that pixel `(x, y)` projects
/// through, before the camera's rotation is applied.
pub open spec fn spec_project(c: PerspectiveCamera, x: usize, y: usize) -> Vector {
    let aspect = spec_div(
        spec_from_int(c.dims.height as i64),
        spec_from_int(c.dims.width as i64),
    );
    let tan_hor = spec_tan(spec_divn(c.fov, 2));
    let tan_ver = spec_mul(tan_hor, aspect);
    let hor_step = spec_div(tan_hor, spec_divn(spec_from_int(c.dims.width as i64), 2));
    let ver_step = spec_div(
        spec_neg(tan_ver),
        spec_divn(spec_from_int(c.dims.height as i64), 2),
    );
    Vector {
        x: spec_sub(spec_mul(hor_step, spec_from_int(x as i64)), tan_hor),
        y: spec_add(spec_mul(ver_step, spec_from_int(y as i64)), tan_ver),
        z: -4294967296i64,
        w: 0,
    }
}

/// The camera's rotation applied to an image-plane point: pitch first, then
/// yaw.
pub open spec fn spec_transition(c: PerspectiveCamera, v: Vector) -> Vector {
    spec_mat_vec(c.rotation.yaw_matrix, spec_mat_vec(c.rotation.pitch_matrix, v))
}

/// The ray for pixel `(u, v)`: the projected, rotated plane point,
/// normalized, from the camera position, in a unit-index medium.
pub open spec fn spec_perspective_ray(c: PerspectiveCamera, u: usize, v: usize) -> Ray {
    Ray {
        origin: c.pos,
        direction: spec_unit_normalize(spec_transition(c, spec_project(c, u, v))),
        ior: FX_ONE,
    }
}

#[derive(Clone, Copy, PartialEq, Eq, Structural, Debug)]
pub struct PerspectiveCamera {
    pub pos: Vector,
    pub rotation: Rotation,
    pub fov: i64,
    pub dims: Dimensions,
}

impl PerspectiveCamera {
    /// A camera at `pos` looking at `target`, with a horizontal field of
    /// view `fov` (fixed-point radians): its orientation is derived once
    /// from the look-at direction.
    pub fn new(pos: Vector, target: Vector, dims: Dimensions, fov: i64) -> (c: PerspectiveCamera)
        ensures
            ({
                let dir = spec_unit_normalize(spec_vsub(target, pos));
                let (pitch, yaw) = spec_define_angles(dir);
                c == (PerspectiveCamera {
                    pos,
                    rotation: spec_rotation_new(pitch, yaw, 0),
                    fov,
                    dims,
                })
            }),
    {
        let dir: Unit = Unit::new_normalize(target.minus(&pos));
        let angles: [i64; 2] = Self::define_angles(&dir);
        PerspectiveCamera { pos, dims, fov, rotation: Rotation::new(angles[0], angles[1], 0) }
    }

    /// The `[pitch, yaw]` under which the default forward direction maps to
    /// `dir`.
    pub fn define_angles(dir: &Unit) -> (r: [i64; 2])
        ensures
            ({
                let (pitch, yaw) = spec_define_angles(*dir);
                r[0] == pitch && r[1] == yaw
            }),
    {
        let y_axis: Vector = Vector::new(0, FX_ONE, 0, 0);
        let x_axis: Vector = Vector::new(FX_ONE, 0, 0, 0);
        let mut yaw: i64 = fx_acos(
            fx_div(dir.dot_vec(&y_axis), fx_sqrt(fx_sub(FX_ONE, fx_mul(dir.v.z, dir.v.z)))),
        );
        if dir.dot_vec(&x_axis) > 0 {
            yaw = fx_neg(yaw);
        }
        let pitch: i64 = fx_acos(Self::default_dir().dot(dir));
        [pitch, yaw]
    }

    /// The default forward direction, along negative z.
    pub fn default_dir() -> (r: Unit)
        ensures
            r == spec_default_dir(),
    {
        Unit::new_unchecked(Vector::new(0, 0, -FX_ONE, 0))
    }

    fn project(&self, x: usize, y: usize) -> (r: Vector)
        ensures
            r == spec_project(*self, x, y),
    {
        let aspect: i64 = fx_div(
            fx_from_int(self.dims.height as i64),
            fx_from_int(self.dims.width as i64),
        );
        let tan_hor: i64 = fx_tan(fx_divn(self.fov, 2));
        let tan_ver: i64 = fx_mul(tan_hor, aspect);
        let hor_step: i64 = fx_div(tan_hor, fx_divn(fx_from_int(self.dims.width as i64), 2));
        let ver_step: i64 = fx_div(
            fx_neg(tan_ver),
            fx_divn(fx_from_int(self.dims.height as i64), 2),
        );
        Vector::new(
            fx_sub(fx_mul(hor_step, fx_from_int(x as i64)), tan_hor),
            fx_add(fx_mul(ver_step, fx_from_int(y as i64)), tan_ver),
            -FX_ONE,
            0,
        )
    }

    /// Apply the camera's rotation: pitch, then yaw.
    pub fn transition(&self, v: &Vector) -> (r: Vector)
        ensures
            r == spec_transition(*self, *v),
    {
        self.rotation.yaw_matrix.mul_vec(&self.rotation.pitch_matrix.mul_vec(v))
    }
}

impl Camera for PerspectiveCamera {
    open spec fn gen_ray_spec(&self, u: usize, v: usize) -> Ray {
        spec_perspective_ray(*self, u, v)
    }

    open spec fn dims_spec(&self) -> Dimensions {
        self.dims
    }

    fn gen_ray(&self, u: usize, v: usize) -> (r: Ray)
        ensures
            r == self.gen_ray_spec(u, v),
    {
        let uv: Vector = self.project(u, v);
        let projected: Vector = self.transition(&uv);
        Ray::new(self.pos, Unit::new_normalize(projected), FX_ONE)
    }

    fn get_dimensions(&self) -> (d: Dimensions)
        ensures
            d == self.dims_spec(),
    {
        self.dims
    }
}

impl Move for PerspectiveCamera {
    open spec fn with_position(self, position: Vector) -> Self {
        PerspectiveCamera { pos: position, ..self }
    }

    open spec fn with_reposition(self, pos: Vector) -> Self {
        PerspectiveCamera {
            pos: spec_vadd(
                self.pos,
                spec_mat_vec(
                    self.rotation.yaw_matrix,
                    spec_mat_vec(self.rotation.pitch_matrix, pos),
                ),
            ),
            ..self
        }
    }

    fn set_position(&mut self, position: Vector)
        ensures
            *final(self) == old(self).with_position(position),
    {
        self.pos = position;
    }

    /// Translate along the camera's own rotated basis, so "forward" always
    /// means camera-forward.
    fn reposition_by(&mut self, pos: &Vector)
        ensures
            *final(self) == old(self).with_reposition(*pos),
    {
        let delta: Vector = self.rotation.yaw_matrix.mul_vec(
            &self.rotation.pitch_matrix.mul_vec(pos),
        );
        self.pos = self.pos.plus(&delta);
    }
}

impl Rotate for PerspectiveCamera {
    open spec fn with_rotation(self, pitch: i64, yaw: i64, roll: i64) -> Self {
        PerspectiveCamera {
            rotation: Rotation {
                pitch,
                yaw,
                roll,
                yaw_matrix: self.rotation.yaw_matrix,
                pitch_matrix: self.rotation.pitch_matrix,
            },
            ..self
        }
    }

    open spec fn with_rotate_by(self, pitch: i64, yaw: i64, roll: i64) -> Self {
        PerspectiveCamera {
            rotation: spec_rotation_new(
                spec_add(self.rotation.pitch, pitch),
                spec_add(self.rotation.yaw, yaw),
                spec_add(self.rotation.roll, roll),
            ),
            ..self
        }
    }

    fn set_rotation(&mut self, pitch: i64, yaw: i64, roll: i64)
        ensures
            *final(self) == old(self).with_rotation(pitch, yaw, roll),
    {
        self.rotation.set_rotation(pitch, yaw, roll);
    }

    fn rotate_by(&mut self, pitch: i64, yaw: i64, roll: i64)
        ensures
            *final(self) == old(self).with_rotate_by(pitch, yaw, roll),
    {
        self.rotation.rotate_by(pitch, yaw, roll);
    }
}

} // verus!
