//! A 2-component vector in the `Vec2`/`Vec3`/`Vec4` family.

use vstd::prelude::*;

use crate::num::fits;
use crate::num::mul_wide;
use crate::point::Point;
use crate::size::Size;
use crate::vec3::Vec3;
use crate::vec4::Vec4;

verus! {

#[derive(Clone, Copy, Debug, PartialEq, Eq, Structural)]
pub struct Vec2 {
    pub dx: i64,
    pub dy: i64,
}

impl Vec2 {
    pub fn new(dx: i64, dy: i64) -> (r: Vec2)
        ensures
            r.dx == dx,
            r.dy == dy,
    {
        Vec2 { dx, dy }
    }

    /// Both components set to the same value.
    pub fn uniform(d: i64) -> (r: Vec2)
        ensures
            r.dx == d,
            r.dy == d,
    {
        Vec2::new(d, d)
    }

    pub fn from_dx(dx: i64) -> (r: Vec2)
        ensures
            r.dx == dx,
            r.dy == 0,
    {
        Vec2 { dx, dy: 0 }
    }

    pub fn from_dy(dy: i64) -> (r: Vec2)
        ensures
            r.dx == 0,
            r.dy == dy,
    {
        Vec2 { dx: 0, dy }
    }

    pub fn zero() -> (r: Vec2)
        ensures
            r.dx == 0,
            r.dy == 0,
    {
        Vec2::new(0, 0)
    }

    /// The first two components of a 3-component vector.
    pub fn from_vec3(vec3: Vec3) -> (r: Vec2)
        ensures
            r.dx == vec3.dx,
            r.dy == vec3.dy,
    {
        Vec2::new(vec3.dx, vec3.dy)
    }

    /// The first two components of a 4-component vector.
    pub fn from_vec4(vec4: Vec4) -> (r: Vec2)
        ensures
            r.dx == vec4.dx,
            r.dy == vec4.dy,
    {
        Vec2::new(vec4.dx, vec4.dy)
    }

    pub fn dot_product(self, rhs: Vec2) -> (r: i64)
        requires
            fits(self.dx as int),
            fits(self.dy as int),
            fits(rhs.dx as int),
            fits(rhs.dy as int),
        ensures
            r == self.dx * rhs.dx + self.dy * rhs.dy,
    {
        mul_wide(self.dx, rhs.dx) + mul_wide(self.dy, rhs.dy)
    }

    pub fn magnitude_squared(self) -> (r: i64)
        requires
            fits(self.dx as int),
            fits(self.dy as int),
        ensures
            r == self.dx * self.dx + self.dy * self.dy,
    {
        self.dot_product(self)
    }

    /// Components scaled by the respective dimensions of `rhs`.
    pub fn scaled(self, rhs: Size) -> (r: Vec2)
        requires
            fits(self.dx as int),
            fits(self.dy as int),
            fits(rhs.width as int),
            fits(rhs.height as int),
        ensures
            r.dx == self.dx * rhs.width,
            r.dy == self.dy * rhs.height,
    {
        Vec2::new(mul_wide(self.dx, rhs.width), mul_wide(self.dy, rhs.height))
    }

    /// Rotated a quarter turn: `(-dy, dx)`.
    pub fn perpendicular(self) -> (r: Vec2)
        requires
            self.dy > i64::MIN,
        ensures
            r.dx == -self.dy,
            r.dy == self.dx,
    {
        Vec2::new(-self.dy, self.dx)
    }

    /// Components swapped.
    pub fn yx(self) -> (r: Vec2)
        ensures
            r.dx == self.dy,
            r.dy == self.dx,
    {
        Vec2::new(self.dy, self.dx)
    }

    /// Both components passed through `f`.
    pub fn map<F: Fn(i64) -> i64>(&self, f: F) -> (r: Vec2)
        requires
            call_requires(f, (self.dx,)),
            call_requires(f, (self.dy,)),
        ensures
            call_ensures(f, (self.dx,), r.dx),
            call_ensures(f, (self.dy,), r.dy),
    {
        Vec2::new(f(self.dx), f(self.dy))
    }

    pub fn to_array(self) -> (r: [i64; 2])
        ensures
            r[0] == self.dx,
            r[1] == self.dy,
    {
        [self.dx, self.dy]
    }

    pub fn to_tuple(self) -> (r: (i64, i64))
        ensures
            r.0 == self.dx,
            r.1 == self.dy,
    {
        (self.dx, self.dy)
    }

    pub fn to_point(self) -> (r: Point)
        ensures
            r.x == self.dx,
            r.y == self.dy,
    {
        Point::new(self.dx, self.dy)
    }

    pub fn to_size(self) -> (r: Size)
        ensures
            r.width == self.dx,
            r.height == self.dy,
    {
        Size::new(self.dx, self.dy)
    }

    /// Extended with a zero `dz` component.
    pub fn to_vec3(self) -> (r: Vec3)
        ensures
            r.dx == self.dx,
            r.dy == self.dy,
            r.dz == 0,
    {
        Vec3::new(self.dx, self.dy, 0)
    }

    /// Extended with zero `dz` and `dw` components.
    pub fn to_vec4(self) -> (r: Vec4)
        ensures
            r.dx == self.dx,
            r.dy == self.dy,
            r.dz == 0,
            r.dw == 0,
    {
        Vec4::new(self.dx, self.dy, 0, 0)
    }

    /// Component-wise addition.
    pub fn plus(self, rhs: Vec2) -> (r: Vec2)
        requires
            i64::MIN <= self.dx + rhs.dx <= i64::MAX,
            i64::MIN <= self.dy + rhs.dy <= i64::MAX,
        ensures
            r.dx == self.dx + rhs.dx,
            r.dy == self.dy + rhs.dy,
    {
        Vec2::new(self.dx + rhs.dx, self.dy + rhs.dy)
    }

    /// Component-wise subtraction.
    pub fn minus(self, rhs: Vec2) -> (r: Vec2)
        requires
            i64::MIN <= self.dx - rhs.dx <= i64::MAX,
            i64::MIN <= self.dy - rhs.dy <= i64::MAX,
        ensures
            r.dx == self.dx - rhs.dx,
            r.dy == self.dy - rhs.dy,
    {
        Vec2::new(self.dx - rhs.dx, self.dy - rhs.dy)
    }
}

} // verus!
