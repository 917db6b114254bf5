//! A circle described by its center and radius.

use vstd::prelude::*;

use crate::num::{fits, max2, min2};
use crate::point::Point;
use crate::rect::{Rect, RectView};
use crate::vector::Vector;

verus! {

#[derive(Clone, Copy, Debug, PartialEq, Eq, Structural)]
pub struct Circle {
    center: Point,
    radius: i64,
}

impl Circle {
    /// The center as a spec value.
    pub closed spec fn spec_center(self) -> Point {
        self.center
    }

    /// The radius as a spec value.
    pub closed spec fn spec_radius(self) -> i64 {
        self.radius
    }

    pub fn new(center: Point, radius: i64) -> (r: Circle)
        ensures
            r.spec_center() == center,
            r.spec_radius() == radius,
    {
        Circle { center, radius }
    }

    /// The radius-1 circle about the origin.
    pub fn unit() -> (r: Circle)
        ensures
            r.spec_center() == (Point { x: 0, y: 0 }),
            r.spec_radius() == 1,
    {
        Circle::new(Point::zero(), 1)
    }

    /// The radius-0 circle about the origin.
    pub fn zero() -> (r: Circle)
        ensures
            r.spec_center() == (Point { x: 0, y: 0 }),
            r.spec_radius() == 0,
    {
        Circle::from_radius(0)
    }

    /// A circle of the given radius about the origin.
    pub fn from_radius(radius: i64) -> (r: Circle)
        ensures
            r.spec_center() == (Point { x: 0, y: 0 }),
            r.spec_radius() == radius,
    {
        Circle::unit().with_radius(radius)
    }

    /// The unit circle moved to the given center.
    pub fn from_center(center: Point) -> (r: Circle)
        ensures
            r.spec_center() == center,
            r.spec_radius() == 1,
    {
        Circle::unit().with_center(center)
    }

    pub fn with_radius(self, radius: i64) -> (r: Circle)
        ensures
            r.spec_center() == self.spec_center(),
            r.spec_radius() == radius,
    {
        Circle { center: self.center, radius }
    }

    pub fn with_center(self, center: Point) -> (r: Circle)
        ensures
            r.spec_center() == center,
            r.spec_radius() == self.spec_radius(),
    {
        Circle { center, radius: self.radius }
    }

    pub fn center(&self) -> (r: Point)
        ensures
            r == self.spec_center(),
    {
        self.center
    }

    pub fn radius(&self) -> (r: i64)
        ensures
            r == self.spec_radius(),
    {
        self.radius
    }

    /// The axis-aligned bounding box: the center offset by the radius in each
    /// direction (stated with min/max so a negative radius is covered too).
    pub fn bounding_rect(&self) -> (r: Rect)
        requires
            self.spec_center()@.fits(),
            fits(self.spec_radius() as int),
        ensures
            r@ == (RectView {
                top: min2(
                    self.spec_center().y - self.spec_radius(),
                    self.spec_center().y + self.spec_radius(),
                ),
                right: max2(
                    self.spec_center().x - self.spec_radius(),
                    self.spec_center().x + self.spec_radius(),
                ),
                bottom: max2(
                    self.spec_center().y - self.spec_radius(),
                    self.spec_center().y + self.spec_radius(),
                ),
                left: min2(
                    self.spec_center().x - self.spec_radius(),
                    self.spec_center().x + self.spec_radius(),
                ),
            }),
    {
        let offset = Vector::uniform(self.radius);
        let low_corner = self.center.minus(offset);
        let high_corner = self.center.plus(offset);
        Rect::from_points(low_corner, high_corner)
    }

    /// The circle displaced by a vector.
    pub fn plus(self, rhs: Vector) -> (r: Circle)
        requires
            i64::MIN <= self.spec_center().x + rhs.dx <= i64::MAX,
            i64::MIN <= self.spec_center().y + rhs.dy <= i64::MAX,
        ensures
            r.spec_center().x == self.spec_center().x + rhs.dx,
            r.spec_center().y == self.spec_center().y + rhs.dy,
            r.spec_radius() == self.spec_radius(),
    {
        Circle::new(self.center.plus(rhs), self.radius)
    }

    /// The circle displaced by the opposite of a vector.
    pub fn minus(self, rhs: Vector) -> (r: Circle)
        requires
            i64::MIN <= self.spec_center().x - rhs.dx <= i64::MAX,
            i64::MIN <= self.spec_center().y - rhs.dy <= i64::MAX,
        ensures
            r.spec_center().x == self.spec_center().x - rhs.dx,
            r.spec_center().y == self.spec_center().y - rhs.dy,
            r.spec_radius() == self.spec_radius(),
    {
        Circle::new(self.center.minus(rhs), self.radius)
    }

    /// The center passed through `f`, the radius kept.
    pub fn map_center<F: FnOnce(Point) -> Point>(self, f: F) -> (r: Circle)
        requires
            call_requires(f, (self.spec_center(),)),
        ensures
            call_ensures(f, (self.spec_center(),), r.spec_center()),
            r.spec_radius() == self.spec_radius(),
    {
        let center = f(self.center);
        Circle::new(center, self.radius)
    }

    /// The radius passed through `f`, the center kept.
    pub fn map_radius<F: FnOnce(i64) -> i64>(self, f: F) -> (r: Circle)
        requires
            call_requires(f, (self.spec_radius(),)),
        ensures
            r.spec_center() == self.spec_center(),
            call_ensures(f, (self.spec_radius(),), r.spec_radius()),
    {
        let radius = f(self.radius);
        Circle::new(self.center, radius)
    }
}

impl Default for Circle {
    /// The unit circle.
    fn default() -> (r: Circle)
        ensures
            r.spec_center() == (Point { x: 0, y: 0 }),
            r.spec_radius() == 1,
    {
        Circle::unit()
    }
}

} // verus!
