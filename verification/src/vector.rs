//! Homogeneous 3-D vectors, unit directions, and small rotation matrices.
//!
//! Vectors carry four fixed-point components; `w` is conventionally zero for
//! both points and directions in this renderer. A [`Unit`] wraps a vector
//! that was normalized at construction (normalization is approximate in
//! fixed-point arithmetic, so no exact unit-magnitude invariant is claimed).

use vstd::prelude::*;

use crate::fixed::{
    fx_add, fx_div, fx_mul, fx_sqrt, fx_sub, spec_add, spec_div, spec_mul, spec_neg, spec_sqrt,
    spec_sub, fx_neg,
};

verus! {

#[derive(Clone, Copy, PartialEq, Eq, Structural, Debug)]
pub struct Vector {
    pub x: i64,
    pub y: i64,
    pub z: i64,
    pub w: i64,
}

pub open spec fn spec_vnew(x: i64, y: i64, z: i64, w: i64) -> Vector {
    Vector { x, y, z, w }
}

pub open spec fn spec_vadd(a: Vector, b: Vector) -> Vector {
    Vector {
        x: spec_add(a.x, b.x),
        y: spec_add(a.y, b.y),
        z: spec_add(a.z, b.z),
        w: spec_add(a.w, b.w),
    }
}

pub open spec fn spec_vsub(a: Vector, b: Vector) -> Vector {
    Vector {
        x: spec_sub(a.x, b.x),
        y: spec_sub(a.y, b.y),
        z: spec_sub(a.z, b.z),
        w: spec_sub(a.w, b.w),
    }
}

pub open spec fn spec_vscale(a: Vector, f: i64) -> Vector {
    Vector {
        x: spec_mul(a.x, f),
        y: spec_mul(a.y, f),
        z: spec_mul(a.z, f),
        w: spec_mul(a.w, f),
    }
}

pub open spec fn spec_vneg(a: Vector) -> Vector {
    Vector { x: spec_neg(a.x), y: spec_neg(a.y), z: spec_neg(a.z), w: spec_neg(a.w) }
}

/// Componentwise dot product over all four components.
pub open spec fn spec_dot(a: Vector, b: Vector) -> i64 {
    spec_add(
        spec_add(spec_add(spec_mul(a.x, b.x), spec_mul(a.y, b.y)), spec_mul(a.z, b.z)),
        spec_mul(a.w, b.w),
    )
}

/// Cross product of the spatial components; `w` of the result is zero.
pub open spec fn spec_cross(a: Vector, b: Vector) -> Vector {
    Vector {
        x: spec_sub(spec_mul(a.y, b.z), spec_mul(a.z, b.y)),
        y: spec_sub(spec_mul(a.z, b.x), spec_mul(a.x, b.z)),
        z: spec_sub(spec_mul(a.x, b.y), spec_mul(a.y, b.x)),
        w: 0,
    }
}

pub open spec fn spec_mag_sq(a: Vector) -> i64 {
    spec_dot(a, a)
}

pub open spec fn spec_mag(a: Vector) -> i64 {
    spec_sqrt(spec_mag_sq(a))
}

/// Normalization; the zero vector (or one of zero computed magnitude) maps to
/// the zero vector.
pub open spec fn spec_vnormalize(a: Vector) -> Vector {
    let m = spec_mag(a);
    Vector {
        x: spec_div(a.x, m),
        y: spec_div(a.y, m),
        z: spec_div(a.z, m),
        w: spec_div(a.w, m),
    }
}

impl Vector {
    pub fn new(x: i64, y: i64, z: i64, w: i64) -> (r: Vector)
        ensures
            r == spec_vnew(x, y, z, w),
    {
        Vector { x, y, z, w }
    }

    pub fn zeros() -> (r: Vector)
        ensures
            r == spec_vnew(0, 0, 0, 0),
    {
        Vector { x: 0, y: 0, z: 0, w: 0 }
    }

    pub fn plus(&self, o: &Vector) -> (r: Vector)
        ensures
            r == spec_vadd(*self, *o),
    {
        Vector {
            x: fx_add(self.x, o.x),
            y: fx_add(self.y, o.y),
            z: fx_add(self.z, o.z),
            w: fx_add(self.w, o.w),
        }
    }

    pub fn minus(&self, o: &Vector) -> (r: Vector)
        ensures
            r == spec_vsub(*self, *o),
    {
        Vector {
            x: fx_sub(self.x, o.x),
            y: fx_sub(self.y, o.y),
            z: fx_sub(self.z, o.z),
            w: fx_sub(self.w, o.w),
        }
    }

    pub fn scale(&self, f: i64) -> (r: Vector)
        ensures
            r == spec_vscale(*self, f),
    {
        Vector {
            x: fx_mul(self.x, f),
            y: fx_mul(self.y, f),
            z: fx_mul(self.z, f),
            w: fx_mul(self.w, f),
        }
    }

    pub fn neg(&self) -> (r: Vector)
        ensures
            r == spec_vneg(*self),
    {
        Vector { x: fx_neg(self.x), y: fx_neg(self.y), z: fx_neg(self.z), w: fx_neg(self.w) }
    }

    pub fn dot(&self, o: &Vector) -> (r: i64)
        ensures
            r == spec_dot(*self, *o),
    {
        fx_add(
            fx_add(fx_add(fx_mul(self.x, o.x), fx_mul(self.y, o.y)), fx_mul(self.z, o.z)),
            fx_mul(self.w, o.w),
        )
    }

    pub fn cross(&self, o: &Vector) -> (r: Vector)
        ensures
            r == spec_cross(*self, *o),
    {
        Vector {
            x: fx_sub(fx_mul(self.y, o.z), fx_mul(self.z, o.y)),
            y: fx_sub(fx_mul(self.z, o.x), fx_mul(self.x, o.z)),
            z: fx_sub(fx_mul(self.x, o.y), fx_mul(self.y, o.x)),
            w: 0,
        }
    }

    pub fn magnitude_squared(&self) -> (r: i64)
        ensures
            r == spec_mag_sq(*self),
    {
        self.dot(self)
    }

    pub fn magnitude(&self) -> (r: i64)
        ensures
            r == spec_mag(*self),
    {
        fx_sqrt(self.magnitude_squared())
    }

    pub fn normalize(&self) -> (r: Vector)
        ensures
            r == spec_vnormalize(*self),
    {
        let m: i64 = self.magnitude();
        Vector {
            x: fx_div(self.x, m),
            y: fx_div(self.y, m),
            z: fx_div(self.z, m),
            w: fx_div(self.w, m),
        }
    }
}

/// A direction vector, normalized when built through [`Unit::new_normalize`].
#[derive(Clone, Copy, PartialEq, Eq, Structural, Debug)]
pub struct Unit {
    pub v: Vector,
}

pub open spec fn spec_unit_normalize(v: Vector) -> Unit {
    Unit { v: spec_vnormalize(v) }
}

impl Unit {
    /// Wrap a vector that the caller already knows to be (approximately)
    /// unit length.
    pub fn new_unchecked(v: Vector) -> (r: Unit)
        ensures
            r == (Unit { v }),
    {
        Unit { v }
    }

    /// Normalize and wrap.
    pub fn new_normalize(v: Vector) -> (r: Unit)
        ensures
            r == spec_unit_normalize(v),
    {
        Unit { v: v.normalize() }
    }

    pub fn into_inner(&self) -> (r: Vector)
        ensures
            r == self.v,
    {
        self.v
    }

    pub fn dot(&self, o: &Unit) -> (r: i64)
        ensures
            r == spec_dot(self.v, o.v),
    {
        self.v.dot(&o.v)
    }

    pub fn dot_vec(&self, o: &Vector) -> (r: i64)
        ensures
            r == spec_dot(self.v, *o),
    {
        self.v.dot(o)
    }

    pub fn scale(&self, f: i64) -> (r: Vector)
        ensures
            r == spec_vscale(self.v, f),
    {
        self.v.scale(f)
    }

    /// The opposite direction (still unit length up to saturation).
    pub fn neg(&self) -> (r: Unit)
        ensures
            r == (Unit { v: spec_vneg(self.v) }),
    {
        Unit { v: self.v.neg() }
    }
}

} // verus!
