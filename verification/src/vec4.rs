//! A 4-component vector in the `Vec2`/`Vec3`/`Vec4` family.

use vstd::prelude::*;

use crate::num::fits;
use crate::num::mul_wide;
use crate::vec3::Vec3;
use crate::vector::Vector;

verus! {

#[derive(Clone, Copy, Debug, PartialEq, Eq, Structural)]
pub struct Vec4 {
    pub dx: i64,
    pub dy: i64,
    pub dz: i64,
    pub dw: i64,
}

impl Vec4 {
    pub fn new(dx: i64, dy: i64, dz: i64, dw: i64) -> (r: Vec4)
        ensures
            r.dx == dx,
            r.dy == dy,
            r.dz == dz,
            r.dw == dw,
    {
        Vec4 { dx, dy, dz, dw }
    }

    /// A 2D displacement extended with zero `dz` and `dw` components.
    pub fn from_vector(vector: Vector) -> (r: Vec4)
        ensures
            r.dx == vector.dx,
            r.dy == vector.dy,
            r.dz == 0,
            r.dw == 0,
    {
        Vec4::new(vector.dx, vector.dy, 0, 0)
    }

    /// A 3-component vector extended with a zero `dw`.
    pub fn from_vec3(vec3: Vec3) -> (r: Vec4)
        ensures
            r.dx == vec3.dx,
            r.dy == vec3.dy,
            r.dz == vec3.dz,
            r.dw == 0,
    {
        Vec4::new(vec3.dx, vec3.dy, vec3.dz, 0)
    }

    pub fn zero() -> (r: Vec4)
        ensures
            r.dx == 0,
            r.dy == 0,
            r.dz == 0,
            r.dw == 0,
    {
        Vec4::new(0, 0, 0, 0)
    }

    pub fn dot_product(self, rhs: Vec4) -> (r: i64)
        requires
            fits(self.dx as int),
            fits(self.dy as int),
            fits(self.dz as int),
            fits(self.dw as int),
            fits(rhs.dx as int),
            fits(rhs.dy as int),
            fits(rhs.dz as int),
            fits(rhs.dw as int),
        ensures
            r == self.dx * rhs.dx + self.dy * rhs.dy + self.dz * rhs.dz + self.dw * rhs.dw,
    {
        mul_wide(self.dx, rhs.dx) + mul_wide(self.dy, rhs.dy) + mul_wide(self.dz, rhs.dz)
            + mul_wide(self.dw, rhs.dw)
    }

    pub fn magnitude_squared(self) -> (r: i64)
        requires
            fits(self.dx as int),
            fits(self.dy as int),
            fits(self.dz as int),
            fits(self.dw as int),
        ensures
            r == self.dx * self.dx + self.dy * self.dy + self.dz * self.dz + self.dw * self.dw,
    {
        self.dot_product(self)
    }

    /// All components passed through `f`.
    pub fn map<F: Fn(i64) -> i64>(&self, f: F) -> (r: Vec4)
        requires
            call_requires(f, (self.dx,)),
            call_requires(f, (self.dy,)),
            call_requires(f, (self.dz,)),
            call_requires(f, (self.dw,)),
        ensures
            call_ensures(f, (self.dx,), r.dx),
            call_ensures(f, (self.dy,), r.dy),
            call_ensures(f, (self.dz,), r.dz),
            call_ensures(f, (self.dw,), r.dw),
    {
        Vec4::new(f(self.dx), f(self.dy), f(self.dz), f(self.dw))
    }

    /// The first two components as a 2D displacement.
    pub fn to_vector(self) -> (r: Vector)
        ensures
            r.dx == self.dx,
            r.dy == self.dy,
    {
        Vector::new(self.dx, self.dy)
    }

    /// The first three components.
    pub fn to_vec3(self) -> (r: Vec3)
        ensures
            r.dx == self.dx,
            r.dy == self.dy,
            r.dz == self.dz,
    {
        Vec3::new(self.dx, self.dy, self.dz)
    }

    /// Component-wise addition.
    pub fn plus(self, rhs: Vec4) -> (r: Vec4)
        requires
            i64::MIN <= self.dx + rhs.dx <= i64::MAX,
            i64::MIN <= self.dy + rhs.dy <= i64::MAX,
            i64::MIN <= self.dz + rhs.dz <= i64::MAX,
            i64::MIN <= self.dw + rhs.dw <= i64::MAX,
        ensures
            r.dx == self.dx + rhs.dx,
            r.dy == self.dy + rhs.dy,
            r.dz == self.dz + rhs.dz,
            r.dw == self.dw + rhs.dw,
    {
        Vec4::new(self.dx + rhs.dx, self.dy + rhs.dy, self.dz + rhs.dz, self.dw + rhs.dw)
    }
}

} // verus!
