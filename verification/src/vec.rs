//! Fixed-point 3-vectors.
//!
//! Componentwise arithmetic over the saturating scalars of [`crate::fixed`],
//! with dot product, length and normalization. A vector whose length
//! truncates to zero normalizes to the zero vector.

use vstd::prelude::*;
use crate::fixed::{
    fx_add, fx_div, fx_mul, fx_neg, fx_sat, fx_sqrt, fx_sub, spec_add, spec_div, spec_mul,
    spec_sqrt, spec_sub,
};

verus! {

/// Clamp an unbounded result into the `i64` range and fit it there.
pub open spec fn sat64(x: int) -> i64 {
    fx_sat(x) as i64
}

/// A 3-vector of fixed-point scalars.
#[derive(Clone, Copy, Debug, PartialEq, Eq, Structural)]
pub struct Vec3 {
    pub x: i64,
    pub y: i64,
    pub z: i64,
}

/// Componentwise saturating sum.
pub open spec fn spec_vadd(a: Vec3, b: Vec3) -> Vec3 {
    Vec3 {
        x: sat64(a.x + b.x),
        y: sat64(a.y + b.y),
        z: sat64(a.z + b.z),
    }
}

/// Componentwise saturating difference.
pub open spec fn spec_vsub(a: Vec3, b: Vec3) -> Vec3 {
    Vec3 {
        x: sat64(a.x - b.x),
        y: sat64(a.y - b.y),
        z: sat64(a.z - b.z),
    }
}

/// Every component scaled by the fixed-point factor `s`.
pub open spec fn spec_vscale(a: Vec3, s: int) -> Vec3 {
    Vec3 {
        x: sat64(spec_mul(a.x as int, s)),
        y: sat64(spec_mul(a.y as int, s)),
        z: sat64(spec_mul(a.z as int, s)),
    }
}

/// Componentwise saturating negation.
pub open spec fn spec_vneg(a: Vec3) -> Vec3 {
    Vec3 { x: sat64(-(a.x as int)), y: sat64(-(a.y as int)), z: sat64(-(a.z as int)) }
}

/// The saturating dot product.
pub open spec fn spec_dot(a: Vec3, b: Vec3) -> int {
    spec_add(
        spec_add(spec_mul(a.x as int, b.x as int), spec_mul(a.y as int, b.y as int)),
        spec_mul(a.z as int, b.z as int),
    )
}

/// The fixed-point length of `a`.
pub open spec fn spec_vlength(a: Vec3) -> int {
    spec_sqrt(spec_dot(a, a))
}

/// `a` scaled to unit length; the zero vector when the length truncates to
/// zero.
pub open spec fn spec_vnormalize(a: Vec3) -> Vec3 {
    let len = spec_vlength(a);
    if len == 0 {
        Vec3 { x: 0, y: 0, z: 0 }
    } else {
        Vec3 {
            x: sat64(spec_div(a.x as int, len)),
            y: sat64(spec_div(a.y as int, len)),
            z: sat64(spec_div(a.z as int, len)),
        }
    }
}

impl Vec3 {
    pub fn new(x: i64, y: i64, z: i64) -> (v: Vec3)
        ensures
            v == (Vec3 { x, y, z }),
    {
        Vec3 { x, y, z }
    }

    pub fn zero() -> (v: Vec3)
        ensures
            v == (Vec3 { x: 0i64, y: 0i64, z: 0i64 }),
    {
        Vec3 { x: 0, y: 0, z: 0 }
    }

    pub fn add(&self, other: &Vec3) -> (v: Vec3)
        ensures
            v == spec_vadd(*self, *other),
    {
        Vec3 {
            x: fx_add(self.x, other.x),
            y: fx_add(self.y, other.y),
            z: fx_add(self.z, other.z),
        }
    }

    pub fn sub(&self, other: &Vec3) -> (v: Vec3)
        ensures
            v == spec_vsub(*self, *other),
    {
        Vec3 {
            x: fx_sub(self.x, other.x),
            y: fx_sub(self.y, other.y),
            z: fx_sub(self.z, other.z),
        }
    }

    pub fn scale(&self, s: i64) -> (v: Vec3)
        ensures
            v == spec_vscale(*self, s as int),
    {
        Vec3 {
            x: fx_mul(self.x, s),
            y: fx_mul(self.y, s),
            z: fx_mul(self.z, s),
        }
    }

    pub fn neg(&self) -> (v: Vec3)
        ensures
            v == spec_vneg(*self),
    {
        Vec3 { x: fx_neg(self.x), y: fx_neg(self.y), z: fx_neg(self.z) }
    }

    pub fn dot(&self, other: &Vec3) -> (r: i64)
        ensures
            r == spec_dot(*self, *other),
    {
        let xx = fx_mul(self.x, other.x);
        let yy = fx_mul(self.y, other.y);
        let zz = fx_mul(self.z, other.z);
        fx_add(fx_add(xx, yy), zz)
    }

    pub fn length(&self) -> (r: i64)
        ensures
            r == spec_vlength(*self),
            r >= 0,
    {
        fx_sqrt(self.dot(self))
    }

    pub fn normalize(&self) -> (v: Vec3)
        ensures
            v == spec_vnormalize(*self),
    {
        let len = self.length();
        if len == 0 {
            Vec3 { x: 0, y: 0, z: 0 }
        } else {
            Vec3 {
                x: fx_div(self.x, len),
                y: fx_div(self.y, len),
                z: fx_div(self.z, len),
            }
        }
    }
}

} // verus!
