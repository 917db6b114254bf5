//! A 2D position with `x`/`y` coordinates.

use vstd::prelude::*;

use crate::num::fits;
use crate::transform::Transform;
use crate::vector::{Vector, VectorView};

verus! {

/// The mathematical value of a [`Point`]: its coordinates as unbounded
/// integers.
#[verifier::ext_equal]
pub struct PointView {
    pub x: int,
    pub y: int,
}

impl PointView {
    /// The displacement from the origin to this point.
    pub open spec fn to_vector(self) -> VectorView {
        VectorView { dx: self.x, dy: self.y }
    }

    /// Both coordinates within the coordinate range.
    pub open spec fn fits(self) -> bool {
        fits(self.x) && fits(self.y)
    }
}

#[derive(Clone, Copy, Debug, PartialEq, Eq, Structural)]
pub struct Point {
    pub x: i64,
    pub y: i64,
}

impl View for Point {
    type V = PointView;

    open spec fn view(&self) -> PointView {
        PointView { x: self.x as int, y: self.y as int }
    }
}

impl Point {
    pub fn new(x: i64, y: i64) -> (r: Point)
        ensures
            r.x == x,
            r.y == y,
    {
        Point { x, y }
    }

    pub fn zero() -> (r: Point)
        ensures
            r.x == 0,
            r.y == 0,
    {
        Point::new(0, 0)
    }

    pub fn from_array(a: [i64; 2]) -> (r: Point)
        ensures
            r.x == a[0],
            r.y == a[1],
    {
        Point::new(a[0], a[1])
    }

    pub fn from_tuple(t: (i64, i64)) -> (r: Point)
        ensures
            r.x == t.0,
            r.y == t.1,
    {
        Point::new(t.0, t.1)
    }

    pub fn with_x(self, x: i64) -> (r: Point)
        ensures
            r.x == x,
            r.y == self.y,
    {
        Point::new(x, self.y)
    }

    pub fn with_y(self, y: i64) -> (r: Point)
        ensures
            r.x == self.x,
            r.y == y,
    {
        Point::new(self.x, y)
    }

    /// The point displaced by a vector.
    pub fn plus(self, rhs: Vector) -> (r: Point)
        requires
            i64::MIN <= self.x + rhs.dx <= i64::MAX,
            i64::MIN <= self.y + rhs.dy <= i64::MAX,
        ensures
            r.x == self.x + rhs.dx,
            r.y == self.y + rhs.dy,
    {
        Point::new(self.x + rhs.dx, self.y + rhs.dy)
    }

    /// The point displaced by the opposite of a vector.
    pub fn minus(self, rhs: Vector) -> (r: Point)
        requires
            i64::MIN <= self.x - rhs.dx <= i64::MAX,
            i64::MIN <= self.y - rhs.dy <= i64::MAX,
        ensures
            r.x == self.x - rhs.dx,
            r.y == self.y - rhs.dy,
    {
        Point::new(self.x - rhs.dx, self.y - rhs.dy)
    }

    /// The displacement from `rhs` to `self`.
    pub fn minus_point(self, rhs: Point) -> (r: Vector)
        requires
            i64::MIN <= self.x - rhs.x <= i64::MAX,
            i64::MIN <= self.y - rhs.y <= i64::MAX,
        ensures
            r.dx == self.x - rhs.x,
            r.dy == self.y - rhs.y,
    {
        Vector::new(self.x - rhs.x, self.y - rhs.y)
    }

    /// Applies the affine transform to this position.
    pub fn transform(self, transform: Transform) -> (r: Point)
        requires
            self@.fits(),
            transform@.fits(),
        ensures
            r@.to_vector() == transform@.apply(self@.to_vector()),
    {
        self.to_vector().transform(transform).to_point()
    }

    /// Both coordinates passed through `f`.
    pub fn map<F: Fn(i64) -> i64>(self, f: F) -> (r: Point)
        requires
            call_requires(f, (self.x,)),
            call_requires(f, (self.y,)),
        ensures
            call_ensures(f, (self.x,), r.x),
            call_ensures(f, (self.y,), r.y),
    {
        Point::new(f(self.x), f(self.y))
    }

    pub fn to_array(self) -> (r: [i64; 2])
        ensures
            r[0] == self.x,
            r[1] == self.y,
    {
        [self.x, self.y]
    }

    pub fn to_tuple(self) -> (r: (i64, i64))
        ensures
            r.0 == self.x,
            r.1 == self.y,
    {
        (self.x, self.y)
    }

    pub fn to_vector(self) -> (r: Vector)
        ensures
            r.dx == self.x,
            r.dy == self.y,
    {
        Vector::new(self.x, self.y)
    }
}

} // verus!
