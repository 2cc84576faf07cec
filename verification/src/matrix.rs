//! Small 3x3 rotation matrices acting on the spatial components of vectors.

use vstd::prelude::*;

use crate::fixed::{fx_add, fx_mul, fx_neg, spec_add, spec_mul, spec_neg, FX_ONE};
use crate::trig::{fx_cos, fx_sin, spec_cos, spec_sin};
use crate::vector::Vector;

verus! {

/// A 3x3 matrix; `w` of a transformed vector passes through unchanged.
#[derive(Clone, Copy, PartialEq, Eq, Structural, Debug)]
pub struct Matrix {
    pub a00: i64,
    pub a01: i64,
    pub a02: i64,
    pub a10: i64,
    pub a11: i64,
    pub a12: i64,
    pub a20: i64,
    pub a21: i64,
    pub a22: i64,
}

/// One row-column product of the matrix application.
pub open spec fn spec_row(m0: i64, m1: i64, m2: i64, x: i64, y: i64, z: i64) -> i64 {
    spec_add(spec_add(spec_mul(m0, x), spec_mul(m1, y)), spec_mul(m2, z))
}

/// Matrix times vector.
pub open spec fn spec_mat_vec(m: Matrix, v: Vector) -> Vector {
    Vector {
        x: spec_row(m.a00, m.a01, m.a02, v.x, v.y, v.z),
        y: spec_row(m.a10, m.a11, m.a12, v.x, v.y, v.z),
        z: spec_row(m.a20, m.a21, m.a22, v.x, v.y, v.z),
        w: v.w,
    }
}

/// Matrix times matrix.
pub open spec fn spec_mat_mul(a: Matrix, b: Matrix) -> Matrix {
    Matrix {
        a00: spec_row(a.a00, a.a01, a.a02, b.a00, b.a10, b.a20),
        a01: spec_row(a.a00, a.a01, a.a02, b.a01, b.a11, b.a21),
        a02: spec_row(a.a00, a.a01, a.a02, b.a02, b.a12, b.a22),
        a10: spec_row(a.a10, a.a11, a.a12, b.a00, b.a10, b.a20),
        a11: spec_row(a.a10, a.a11, a.a12, b.a01, b.a11, b.a21),
        a12: spec_row(a.a10, a.a11, a.a12, b.a02, b.a12, b.a22),
        a20: spec_row(a.a20, a.a21, a.a22, b.a00, b.a10, b.a20),
        a21: spec_row(a.a20, a.a21, a.a22, b.a01, b.a11, b.a21),
        a22: spec_row(a.a20, a.a21, a.a22, b.a02, b.a12, b.a22),
    }
}

/// The rotation about the vertical (z) axis by `angle`.
pub open spec fn spec_rot_z(angle: i64) -> Matrix {
    let c = spec_cos(angle);
    let s = spec_sin(angle);
    Matrix {
        a00: c,
        a01: spec_neg(s),
        a02: 0,
        a10: s,
        a11: c,
        a12: 0,
        a20: 0,
        a21: 0,
        a22: FX_ONE,
    }
}

/// The rotation about the x axis by `angle`.
pub open spec fn spec_rot_x(angle: i64) -> Matrix {
    let c = spec_cos(angle);
    let s = spec_sin(angle);
    Matrix {
        a00: FX_ONE,
        a01: 0,
        a02: 0,
        a10: 0,
        a11: c,
        a12: spec_neg(s),
        a20: 0,
        a21: s,
        a22: c,
    }
}

/// The rotation about the y axis by `angle`.
pub open spec fn spec_rot_y(angle: i64) -> Matrix {
    let c = spec_cos(angle);
    let s = spec_sin(angle);
    Matrix {
        a00: c,
        a01: 0,
        a02: s,
        a10: 0,
        a11: FX_ONE,
        a12: 0,
        a20: spec_neg(s),
        a21: 0,
        a22: c,
    }
}

impl Matrix {
    pub fn mul_vec(&self, v: &Vector) -> (r: Vector)
        ensures
            r == spec_mat_vec(*self, *v),
    {
        Vector {
            x: fx_add(fx_add(fx_mul(self.a00, v.x), fx_mul(self.a01, v.y)), fx_mul(self.a02, v.z)),
            y: fx_add(fx_add(fx_mul(self.a10, v.x), fx_mul(self.a11, v.y)), fx_mul(self.a12, v.z)),
            z: fx_add(fx_add(fx_mul(self.a20, v.x), fx_mul(self.a21, v.y)), fx_mul(self.a22, v.z)),
            w: v.w,
        }
    }

    pub fn mul_mat(&self, b: &Matrix) -> (r: Matrix)
        ensures
            r == spec_mat_mul(*self, *b),
    {
        Matrix {
            a00: fx_add(fx_add(fx_mul(self.a00, b.a00), fx_mul(self.a01, b.a10)), fx_mul(self.a02, b.a20)),
            a01: fx_add(fx_add(fx_mul(self.a00, b.a01), fx_mul(self.a01, b.a11)), fx_mul(self.a02, b.a21)),
            a02: fx_add(fx_add(fx_mul(self.a00, b.a02), fx_mul(self.a01, b.a12)), fx_mul(self.a02, b.a22)),
            a10: fx_add(fx_add(fx_mul(self.a10, b.a00), fx_mul(self.a11, b.a10)), fx_mul(self.a12, b.a20)),
            a11: fx_add(fx_add(fx_mul(self.a10, b.a01), fx_mul(self.a11, b.a11)), fx_mul(self.a12, b.a21)),
            a12: fx_add(fx_add(fx_mul(self.a10, b.a02), fx_mul(self.a11, b.a12)), fx_mul(self.a12, b.a22)),
            a20: fx_add(fx_add(fx_mul(self.a20, b.a00), fx_mul(self.a21, b.a10)), fx_mul(self.a22, b.a20)),
            a21: fx_add(fx_add(fx_mul(self.a20, b.a01), fx_mul(self.a21, b.a11)), fx_mul(self.a22, b.a21)),
            a22: fx_add(fx_add(fx_mul(self.a20, b.a02), fx_mul(self.a21, b.a12)), fx_mul(self.a22, b.a22)),
        }
    }

    pub fn rotation_z(angle: i64) -> (r: Matrix)
        ensures
            r == spec_rot_z(angle),
    {
        let c: i64 = fx_cos(angle);
        let s: i64 = fx_sin(angle);
        Matrix { a00: c, a01: fx_neg(s), a02: 0, a10: s, a11: c, a12: 0, a20: 0, a21: 0, a22: FX_ONE }
    }

    pub fn rotation_x(angle: i64) -> (r: Matrix)
        ensures
            r == spec_rot_x(angle),
    {
        let c: i64 = fx_cos(angle);
        let s: i64 = fx_sin(angle);
        Matrix { a00: FX_ONE, a01: 0, a02: 0, a10: 0, a11: c, a12: fx_neg(s), a20: 0, a21: s, a22: c }
    }

    pub fn rotation_y(angle: i64) -> (r: Matrix)
        ensures
            r == spec_rot_y(angle),
    {
        let c: i64 = fx_cos(angle);
        let s: i64 = fx_sin(angle);
        Matrix { a00: c, a01: 0, a02: s, a10: 0, a11: FX_ONE, a12: 0, a20: fx_neg(s), a21: 0, a22: c }
    }
}

} // verus!
