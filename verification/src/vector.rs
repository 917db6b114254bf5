//! A 2D displacement with `dx`/`dy` components.

use vstd::prelude::*;

use crate::num::fits;
use crate::num::mul_wide;
use crate::direction::{Cardinal, Direction};
use crate::point::Point;
use crate::size::Size;
use crate::transform::Transform;

verus! {

/// The mathematical value of a [`Vector`]: its components as unbounded
/// integers.
#[verifier::ext_equal]
pub struct VectorView {
    pub dx: int,
    pub dy: int,
}

impl VectorView {
    /// Component-wise sum.
    pub open spec fn plus(self, rhs: VectorView) -> VectorView {
        VectorView { dx: self.dx + rhs.dx, dy: self.dy + rhs.dy }
    }

    /// Component-wise difference.
    pub open spec fn minus(self, rhs: VectorView) -> VectorView {
        VectorView { dx: self.dx - rhs.dx, dy: self.dy - rhs.dy }
    }

    /// Both components within the coordinate range.
    pub open spec fn fits(self) -> bool {
        fits(self.dx) && fits(self.dy)
    }
}

#[derive(Clone, Copy, Debug, PartialEq, Eq, Structural)]
pub struct Vector {
    pub dx: i64,
    pub dy: i64,
}

impl View for Vector {
    type V = VectorView;

    open spec fn view(&self) -> VectorView {
        VectorView { dx: self.dx as int, dy: self.dy as int }
    }
}

impl Vector {
    pub fn new(dx: i64, dy: i64) -> (r: Vector)
        ensures
            r.dx == dx,
            r.dy == dy,
    {
        Vector { dx, dy }
    }

    /// Both components set to the same value.
    pub fn uniform(d: i64) -> (r: Vector)
        ensures
            r.dx == d,
            r.dy == d,
    {
        Vector::new(d, d)
    }

    pub fn from_dx(dx: i64) -> (r: Vector)
        ensures
            r.dx == dx,
            r.dy == 0,
    {
        Vector { dx, dy: 0 }
    }

    pub fn from_dy(dy: i64) -> (r: Vector)
        ensures
            r.dx == 0,
            r.dy == dy,
    {
        Vector { dx: 0, dy }
    }

    pub fn zero() -> (r: Vector)
        ensures
            r.dx == 0,
            r.dy == 0,
    {
        Vector::new(0, 0)
    }

    pub fn from_array(a: [i64; 2]) -> (r: Vector)
        ensures
            r.dx == a[0],
            r.dy == a[1],
    {
        Vector::new(a[0], a[1])
    }

    pub fn from_tuple(t: (i64, i64)) -> (r: Vector)
        ensures
            r.dx == t.0,
            r.dy == t.1,
    {
        Vector::new(t.0, t.1)
    }

    pub fn with_dx(self, dx: i64) -> (r: Vector)
        ensures
            r.dx == dx,
            r.dy == self.dy,
    {
        Vector::new(dx, self.dy)
    }

    pub fn with_dy(self, dy: i64) -> (r: Vector)
        ensures
            r.dx == self.dx,
            r.dy == dy,
    {
        Vector::new(self.dx, dy)
    }

    /// Component-wise addition.
    pub fn plus(self, rhs: Vector) -> (r: Vector)
        requires
            i64::MIN <= self.dx + rhs.dx <= i64::MAX,
            i64::MIN <= self.dy + rhs.dy <= i64::MAX,
        ensures
            r@ == self@.plus(rhs@),
    {
        Vector::new(self.dx + rhs.dx, self.dy + rhs.dy)
    }

    /// Component-wise subtraction.
    pub fn minus(self, rhs: Vector) -> (r: Vector)
        requires
            i64::MIN <= self.dx - rhs.dx <= i64::MAX,
            i64::MIN <= self.dy - rhs.dy <= i64::MAX,
        ensures
            r@ == self@.minus(rhs@),
    {
        Vector::new(self.dx - rhs.dx, self.dy - rhs.dy)
    }

    /// Both components negated.
    pub fn neg(self) -> (r: Vector)
        requires
            self.dx > i64::MIN,
            self.dy > i64::MIN,
        ensures
            r.dx == -self.dx,
            r.dy == -self.dy,
    {
        Vector::new(-self.dx, -self.dy)
    }

    /// Both components scaled by the same factor.
    pub fn scaled_by(self, rhs: i64) -> (r: Vector)
        requires
            self@.fits(),
            fits(rhs as int),
        ensures
            r.dx == self.dx * rhs,
            r.dy == self.dy * rhs,
    {
        Vector::new(mul_wide(self.dx, rhs), mul_wide(self.dy, rhs))
    }

    /// Components scaled by the respective dimensions of `rhs`.
    pub fn scaled(self, rhs: Size) -> (r: Vector)
        requires
            self@.fits(),
            fits(rhs.width as int),
            fits(rhs.height as int),
        ensures
            r.dx == self.dx * rhs.width,
            r.dy == self.dy * rhs.height,
    {
        Vector::new(mul_wide(self.dx, rhs.width), mul_wide(self.dy, rhs.height))
    }

    pub fn dot_product(self, rhs: Vector) -> (r: i64)
        requires
            self@.fits(),
            rhs@.fits(),
        ensures
            r == self.dx * rhs.dx + self.dy * rhs.dy,
    {
        mul_wide(self.dx, rhs.dx) + mul_wide(self.dy, rhs.dy)
    }

    pub fn magnitude_squared(self) -> (r: i64)
        requires
            self@.fits(),
        ensures
            r == self.dx * self.dx + self.dy * self.dy,
    {
        self.dot_product(self)
    }

    /// Rotated a quarter turn: `(-dy, dx)`.
    pub fn perpendicular(self) -> (r: Vector)
        requires
            self.dy > i64::MIN,
        ensures
            r.dx == -self.dy,
            r.dy == self.dx,
    {
        Vector::new(-self.dy, self.dx)
    }

    /// Components swapped.
    pub fn yx(self) -> (r: Vector)
        ensures
            r.dx == self.dy,
            r.dy == self.dx,
    {
        Vector::new(self.dy, self.dx)
    }

    /// Applies the affine transform to this displacement, translation
    /// included.
    pub fn transform(&self, transform: Transform) -> (r: Vector)
        requires
            self@.fits(),
            transform@.fits(),
        ensures
            r@ == transform@.apply(self@),
    {
        Vector::new(
            mul_wide(self.dx, transform.m11) + mul_wide(self.dy, transform.m21) + transform.m31,
            mul_wide(self.dx, transform.m12) + mul_wide(self.dy, transform.m22) + transform.m32,
        )
    }

    /// Both components passed through `f`.
    pub fn map<F: Fn(i64) -> i64>(&self, f: F) -> (r: Vector)
        requires
            call_requires(f, (self.dx,)),
            call_requires(f, (self.dy,)),
        ensures
            call_ensures(f, (self.dx,), r.dx),
            call_ensures(f, (self.dy,), r.dy),
    {
        Vector::new(f(self.dx), f(self.dy))
    }

    pub fn map_dx<F: FnOnce(i64) -> i64>(self, f: F) -> (r: Vector)
        requires
            call_requires(f, (self.dx,)),
        ensures
            call_ensures(f, (self.dx,), r.dx),
            r.dy == self.dy,
    {
        let dx = f(self.dx);
        self.with_dx(dx)
    }

    pub fn map_dy<F: FnOnce(i64) -> i64>(self, f: F) -> (r: Vector)
        requires
            call_requires(f, (self.dy,)),
        ensures
            r.dx == self.dx,
            call_ensures(f, (self.dy,), r.dy),
    {
        let dy = f(self.dy);
        self.with_dy(dy)
    }

    pub fn to_array(self) -> (r: [i64; 2])
        ensures
            r[0] == self.dx,
            r[1] == self.dy,
    {
        [self.dx, self.dy]
    }

    pub fn to_tuple(self) -> (r: (i64, i64))
        ensures
            r.0 == self.dx,
            r.1 == self.dy,
    {
        (self.dx, self.dy)
    }

    pub fn to_point(self) -> (r: Point)
        ensures
            r.x == self.dx,
            r.y == self.dy,
    {
        Point::new(self.dx, self.dy)
    }

    pub fn to_size(self) -> (r: Size)
        ensures
            r.width == self.dx,
            r.height == self.dy,
    {
        Size::new(self.dx, self.dy)
    }

    /// The unit offset of an eight-way direction, in the Y-down convention
    /// (`North` is `(0, -1)`).
    pub fn from_direction(direction: Direction) -> (r: Vector)
        ensures
            r@ == spec_direction_offset(direction),
    {
        match direction {
            Direction::North => Vector::new(0, -1),
            Direction::East => Vector::new(1, 0),
            Direction::South => Vector::new(0, 1),
            Direction::West => Vector::new(-1, 0),
            Direction::Northeast => Vector::new(1, -1),
            Direction::Southeast => Vector::new(1, 1),
            Direction::Southwest => Vector::new(-1, 1),
            Direction::Northwest => Vector::new(-1, -1),
        }
    }

    /// The unit offset of a cardinal direction, in the Y-down convention.
    pub fn from_cardinal(cardinal: Cardinal) -> (r: Vector)
        ensures
            r@ == spec_cardinal_offset(cardinal),
    {
        match cardinal {
            Cardinal::North => Vector::new(0, -1),
            Cardinal::East => Vector::new(1, 0),
            Cardinal::South => Vector::new(0, 1),
            Cardinal::West => Vector::new(-1, 0),
        }
    }
}

pub open spec fn spec_direction_offset(direction: Direction) -> VectorView {
    match direction {
        Direction::North => VectorView { dx: 0, dy: -1 },
        Direction::East => VectorView { dx: 1, dy: 0 },
        Direction::South => VectorView { dx: 0, dy: 1 },
        Direction::West => VectorView { dx: -1, dy: 0 },
        Direction::Northeast => VectorView { dx: 1, dy: -1 },
        Direction::Southeast => VectorView { dx: 1, dy: 1 },
        Direction::Southwest => VectorView { dx: -1, dy: 1 },
        Direction::Northwest => VectorView { dx: -1, dy: -1 },
    }
}

pub open spec fn spec_cardinal_offset(cardinal: Cardinal) -> VectorView {
    match cardinal {
        Cardinal::North => VectorView { dx: 0, dy: -1 },
        Cardinal::East => VectorView { dx: 1, dy: 0 },
        Cardinal::South => VectorView { dx: 0, dy: 1 },
        Cardinal::West => VectorView { dx: -1, dy: 0 },
    }
}

} // verus!
