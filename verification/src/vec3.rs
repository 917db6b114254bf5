//! A 3-component vector in the `Vec2`/`Vec3`/`Vec4` family.

use vstd::prelude::*;

use crate::num::fits;
use crate::num::mul_wide;
use crate::vec2::Vec2;
use crate::vec4::Vec4;

verus! {

#[derive(Clone, Copy, Debug, PartialEq, Eq, Structural)]
pub struct Vec3 {
    pub dx: i64,
    pub dy: i64,
    pub dz: i64,
}

impl Vec3 {
    pub fn new(dx: i64, dy: i64, dz: i64) -> (r: Vec3)
        ensures
            r.dx == dx,
            r.dy == dy,
            r.dz == dz,
    {
        Vec3 { dx, dy, dz }
    }

    /// A 2-component vector extended with a zero `dz`.
    pub fn from_vec2(vec2: Vec2) -> (r: Vec3)
        ensures
            r.dx == vec2.dx,
            r.dy == vec2.dy,
            r.dz == 0,
    {
        Vec3::new(vec2.dx, vec2.dy, 0)
    }

    /// The first three components of a 4-component vector.
    pub fn from_vec4(vec4: Vec4) -> (r: Vec3)
        ensures
            r.dx == vec4.dx,
            r.dy == vec4.dy,
            r.dz == vec4.dz,
    {
        Vec3::new(vec4.dx, vec4.dy, vec4.dz)
    }

    pub fn zero() -> (r: Vec3)
        ensures
            r.dx == 0,
            r.dy == 0,
            r.dz == 0,
    {
        Vec3::new(0, 0, 0)
    }

    pub fn dot_product(self, rhs: Vec3) -> (r: i64)
        requires
            fits(self.dx as int),
            fits(self.dy as int),
            fits(self.dz as int),
            fits(rhs.dx as int),
            fits(rhs.dy as int),
            fits(rhs.dz as int),
        ensures
            r == self.dx * rhs.dx + self.dy * rhs.dy + self.dz * rhs.dz,
    {
        mul_wide(self.dx, rhs.dx) + mul_wide(self.dy, rhs.dy) + mul_wide(self.dz, rhs.dz)
    }

    pub fn magnitude_squared(self) -> (r: i64)
        requires
            fits(self.dx as int),
            fits(self.dy as int),
            fits(self.dz as int),
        ensures
            r == self.dx * self.dx + self.dy * self.dy + self.dz * self.dz,
    {
        self.dot_product(self)
    }

    /// All components passed through `f`.
    pub fn map<F: Fn(i64) -> i64>(&self, f: F) -> (r: Vec3)
        requires
            call_requires(f, (self.dx,)),
            call_requires(f, (self.dy,)),
            call_requires(f, (self.dz,)),
        ensures
            call_ensures(f, (self.dx,), r.dx),
            call_ensures(f, (self.dy,), r.dy),
            call_ensures(f, (self.dz,), r.dz),
    {
        Vec3::new(f(self.dx), f(self.dy), f(self.dz))
    }

    /// The first two components.
    pub fn to_vec2(self) -> (r: Vec2)
        ensures
            r.dx == self.dx,
            r.dy == self.dy,
    {
        Vec2::new(self.dx, self.dy)
    }

    /// Extended with a zero `dw` component.
    pub fn to_vec4(self) -> (r: Vec4)
        ensures
            r.dx == self.dx,
            r.dy == self.dy,
            r.dz == self.dz,
            r.dw == 0,
    {
        Vec4::new(self.dx, self.dy, self.dz, 0)
    }

    /// Component-wise addition.
    pub fn plus(self, rhs: Vec3) -> (r: Vec3)
        requires
            i64::MIN <= self.dx + rhs.dx <= i64::MAX,
            i64::MIN <= self.dy + rhs.dy <= i64::MAX,
            i64::MIN <= self.dz + rhs.dz <= i64::MAX,
        ensures
            r.dx == self.dx + rhs.dx,
            r.dy == self.dy + rhs.dy,
            r.dz == self.dz + rhs.dz,
    {
        Vec3::new(self.dx + rhs.dx, self.dy + rhs.dy, self.dz + rhs.dz)
    }
}

} // verus!
