//! 3D vectors and parametric rays over fixed-point scalars.

use vstd::prelude::*;

use crate::fixed::{
    add_fix, div_fix, fadd, fdiv, fmul, fneg, fsqrt, fsub, mul_fix, neg_fix, sat, sqrt_fix,
    sub_fix,
};

verus! {

/// Mathematical model of a vector: the three scaled components as
/// unbounded integers.
pub struct V3m {
    pub x: int,
    pub y: int,
    pub z: int,
}

impl V3m {
    /// Component-wise saturating sum.
    pub open spec fn add(self, o: V3m) -> V3m {
        V3m { x: fadd(self.x, o.x), y: fadd(self.y, o.y), z: fadd(self.z, o.z) }
    }

    /// Component-wise saturating difference.
    pub open spec fn sub(self, o: V3m) -> V3m {
        V3m { x: fsub(self.x, o.x), y: fsub(self.y, o.y), z: fsub(self.z, o.z) }
    }

    /// Component-wise negation.
    pub open spec fn neg(self) -> V3m {
        V3m { x: fneg(self.x), y: fneg(self.y), z: fneg(self.z) }
    }

    /// Each component multiplied by the scalar `k`.
    pub open spec fn scale(self, k: int) -> V3m {
        V3m { x: fmul(k, self.x), y: fmul(k, self.y), z: fmul(k, self.z) }
    }

    /// Each component divided by the scalar `k`.
    pub open spec fn scale_div(self, k: int) -> V3m {
        V3m { x: fdiv(self.x, k), y: fdiv(self.y, k), z: fdiv(self.z, k) }
    }

    /// Inner product.
    pub open spec fn dot(self, o: V3m) -> int {
        sat(fmul(self.x, o.x) + fmul(self.y, o.y) + fmul(self.z, o.z))
    }

    /// Component-wise (Hadamard) product, the attenuation rule for colors.
    pub open spec fn hadamard(self, o: V3m) -> V3m {
        V3m { x: fmul(self.x, o.x), y: fmul(self.y, o.y), z: fmul(self.z, o.z) }
    }

    /// Cross product.
    pub open spec fn cross(self, o: V3m) -> V3m {
        V3m {
            x: fsub(fmul(self.y, o.z), fmul(self.z, o.y)),
            y: fsub(fmul(self.z, o.x), fmul(self.x, o.z)),
            z: fsub(fmul(self.x, o.y), fmul(self.y, o.x)),
        }
    }

    /// Length of the vector: the square root of its inner product with
    /// itself.
    pub open spec fn length(self) -> int {
        fsqrt(self.dot(self))
    }

    /// The vector scaled to unit length (by truncated division).
    pub open spec fn normalize(self) -> V3m {
        self.scale_div(self.length())
    }

    /// The zero vector.
    pub open spec fn zero() -> V3m {
        V3m { x: 0, y: 0, z: 0 }
    }
}

/// A 3D vector of fixed-point scalars, used both as a point and as a
/// direction.
#[derive(Clone, Copy, Debug, PartialEq, Eq, Structural)]
pub struct V3 {
    pub x: i64,
    pub y: i64,
    pub z: i64,
}

/// A point in space is a vector from the origin.
pub type Point = V3;

impl View for V3 {
    type V = V3m;

    open spec fn view(&self) -> V3m {
        V3m { x: self.x as int, y: self.y as int, z: self.z as int }
    }
}

impl V3 {
    /// Build a vector from its three scaled components.
    pub fn new(x: i64, y: i64, z: i64) -> (v: V3)
        ensures
            v@ == (V3m { x: x as int, y: y as int, z: z as int }),
    {
        V3 { x, y, z }
    }

    /// Component-wise saturating sum.
    pub fn add(&self, o: &V3) -> (r: V3)
        ensures
            r@ == self@.add(o@),
    {
        V3 { x: add_fix(self.x, o.x), y: add_fix(self.y, o.y), z: add_fix(self.z, o.z) }
    }

    /// Component-wise saturating difference.
    pub fn sub(&self, o: &V3) -> (r: V3)
        ensures
            r@ == self@.sub(o@),
    {
        V3 { x: sub_fix(self.x, o.x), y: sub_fix(self.y, o.y), z: sub_fix(self.z, o.z) }
    }

    /// Component-wise negation.
    pub fn neg(&self) -> (r: V3)
        ensures
            r@ == self@.neg(),
    {
        V3 { x: neg_fix(self.x), y: neg_fix(self.y), z: neg_fix(self.z) }
    }

    /// Each component multiplied by the scalar `k`.
    pub fn scale(&self, k: i64) -> (r: V3)
        ensures
            r@ == self@.scale(k as int),
    {
        V3 { x: mul_fix(k, self.x), y: mul_fix(k, self.y), z: mul_fix(k, self.z) }
    }

    /// Each component divided by the scalar `k`.
    pub fn scale_div(&self, k: i64) -> (r: V3)
        ensures
            r@ == self@.scale_div(k as int),
    {
        V3 { x: div_fix(self.x, k), y: div_fix(self.y, k), z: div_fix(self.z, k) }
    }

    /// Inner product.
    pub fn dot(&self, o: &V3) -> (r: i64)
        ensures
            r as int == self@.dot(o@),
    {
        let px: i64 = mul_fix(self.x, o.x);
        let py: i64 = mul_fix(self.y, o.y);
        let pz: i64 = mul_fix(self.z, o.z);
        let s: i128 = (px as i128) + (py as i128) + (pz as i128);
        crate::fixed::sat_wide(s)
    }

    /// Component-wise (Hadamard) product.
    pub fn hadamard(&self, o: &V3) -> (r: V3)
        ensures
            r@ == self@.hadamard(o@),
    {
        V3 { x: mul_fix(self.x, o.x), y: mul_fix(self.y, o.y), z: mul_fix(self.z, o.z) }
    }

    /// Cross product.
    pub fn cross(&self, o: &V3) -> (r: V3)
        ensures
            r@ == self@.cross(o@),
    {
        V3 {
            x: sub_fix(mul_fix(self.y, o.z), mul_fix(self.z, o.y)),
            y: sub_fix(mul_fix(self.z, o.x), mul_fix(self.x, o.z)),
            z: sub_fix(mul_fix(self.x, o.y), mul_fix(self.y, o.x)),
        }
    }

    /// Length of the vector.
    pub fn length(&self) -> (r: i64)
        ensures
            r as int == self@.length(),
    {
        sqrt_fix(self.dot(self))
    }

    /// The vector scaled to unit length.
    pub fn normalize(&self) -> (r: V3)
        ensures
            r@ == self@.normalize(),
    {
        let len: i64 = self.length();
        self.scale_div(len)
    }
}

/// Mathematical model of a ray.
pub struct RayM {
    pub a: V3m,
    pub b: V3m,
}

impl RayM {
    /// The point reached after travelling `t` along the ray.
    pub open spec fn at(self, t: int) -> V3m {
        self.a.add(self.b.scale(t))
    }
}

/// The half-line `p(t) = a + t * b`: origin `a`, direction `b`.
#[derive(Clone, Copy, Debug, PartialEq, Eq, Structural)]
pub struct Ray {
    pub a: Point,
    pub b: V3,
}

impl View for Ray {
    type V = RayM;

    open spec fn view(&self) -> RayM {
        RayM { a: self.a@, b: self.b@ }
    }
}

impl Ray {
    /// Build a ray from its origin and direction.
    pub fn new(a: Point, b: V3) -> (r: Ray)
        ensures
            r@ == (RayM { a: a@, b: b@ }),
    {
        Ray { a, b }
    }

    /// The ray's origin.
    pub fn origin(&self) -> (r: Point)
        ensures
            r@ == self@.a,
    {
        self.a
    }

    /// The ray's direction.
    pub fn direction(&self) -> (r: V3)
        ensures
            r@ == self@.b,
    {
        self.b
    }

    /// The point reached after travelling `t` along the ray.
    pub fn point_at_parameter(&self, t: i64) -> (r: Point)
        ensures
            r@ == self@.at(t as int),
    {
        self.a.add(&self.b.scale(t))
    }
}

} // verus!
