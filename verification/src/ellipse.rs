//! An axis-aligned ellipse described by its center and a radius per axis.

use vstd::prelude::*;

use crate::circle::Circle;
use crate::num::fits;
use crate::num::mul_wide;
use crate::point::Point;
use crate::rect::{Rect, RectView};
use crate::size::Size;
use crate::vector::Vector;

verus! {

#[derive(Clone, Copy, Debug, PartialEq, Eq, Structural)]
pub struct Ellipse {
    center: Point,
    radius: Size,
}

impl Ellipse {
    /// The center as a spec value.
    pub closed spec fn spec_center(self) -> Point {
        self.center
    }

    /// The per-axis radius as a spec value.
    pub closed spec fn spec_radius(self) -> Size {
        self.radius
    }

    pub fn new(center: Point, radius: Size) -> (r: Ellipse)
        ensures
            r.spec_center() == center,
            r.spec_radius() == radius,
    {
        Ellipse { center, radius }
    }

    /// The radius-1 ellipse about the origin.
    pub fn unit() -> (r: Ellipse)
        ensures
            r.spec_center() == (Point { x: 0, y: 0 }),
            r.spec_radius() == (Size { width: 1, height: 1 }),
    {
        Ellipse::new(Point::zero(), Size::square(1))
    }

    /// The radius-0 ellipse about the origin.
    pub fn zero() -> (r: Ellipse)
        ensures
            r.spec_center() == (Point { x: 0, y: 0 }),
            r.spec_radius() == (Size { width: 0, height: 0 }),
    {
        Ellipse::from_radius(Size::zero())
    }

    /// An ellipse of the given radius about the origin.
    pub fn from_radius(radius: Size) -> (r: Ellipse)
        ensures
            r.spec_center() == (Point { x: 0, y: 0 }),
            r.spec_radius() == radius,
    {
        Ellipse::unit().with_radius(radius)
    }

    /// The unit ellipse moved to the given center.
    pub fn from_center(center: Point) -> (r: Ellipse)
        ensures
            r.spec_center() == center,
            r.spec_radius() == (Size { width: 1, height: 1 }),
    {
        Ellipse::unit().with_center(center)
    }

    pub fn with_radius(self, radius: Size) -> (r: Ellipse)
        ensures
            r.spec_center() == self.spec_center(),
            r.spec_radius() == radius,
    {
        Ellipse { center: self.center, radius }
    }

    pub fn with_center(self, center: Point) -> (r: Ellipse)
        ensures
            r.spec_center() == center,
            r.spec_radius() == self.spec_radius(),
    {
        Ellipse { center, radius: self.radius }
    }

    /// The radius grown by `by`, per axis.
    pub fn add_radius(self, by: Size) -> (r: Ellipse)
        requires
            i64::MIN <= self.spec_radius().width + by.width <= i64::MAX,
            i64::MIN <= self.spec_radius().height + by.height <= i64::MAX,
        ensures
            r.spec_center() == self.spec_center(),
            r.spec_radius().width == self.spec_radius().width + by.width,
            r.spec_radius().height == self.spec_radius().height + by.height,
    {
        Ellipse::new(self.center, Size::new(self.radius.width + by.width, self.radius.height + by.height))
    }

    /// The radius scaled by the respective components of `coeff`.
    pub fn scale_radius(self, coeff: Vector) -> (r: Ellipse)
        requires
            fits(self.spec_radius().width as int),
            fits(self.spec_radius().height as int),
            coeff@.fits(),
        ensures
            r.spec_center() == self.spec_center(),
            r.spec_radius().width == self.spec_radius().width * coeff.dx,
            r.spec_radius().height == self.spec_radius().height * coeff.dy,
    {
        Ellipse::new(self.center, self.radius.scale(coeff))
    }

    pub fn center(&self) -> (r: Point)
        ensures
            r == self.spec_center(),
    {
        self.center
    }

    pub fn radius(&self) -> (r: Size)
        ensures
            r == self.spec_radius(),
    {
        self.radius
    }

    /// Each radius squared.
    pub fn radius_squared(&self) -> (r: Size)
        requires
            fits(self.spec_radius().width as int),
            fits(self.spec_radius().height as int),
        ensures
            r.width == self.spec_radius().width * self.spec_radius().width,
            r.height == self.spec_radius().height * self.spec_radius().height,
    {
        Size::new(
            mul_wide(self.radius.width, self.radius.width),
            mul_wide(self.radius.height, self.radius.height),
        )
    }

    /// The axis-aligned bounding box: the rect centered here whose size is
    /// twice the radius on each axis.
    pub fn bounding_rect(&self) -> (r: Rect)
        requires
            self.spec_center()@.fits(),
            fits(2 * self.spec_radius().width),
            fits(2 * self.spec_radius().height),
        ensures
            r@ == (RectView {
                top: self.spec_center().y - self.spec_radius().height,
                right: self.spec_center().x + self.spec_radius().width,
                bottom: self.spec_center().y + self.spec_radius().height,
                left: self.spec_center().x - self.spec_radius().width,
            }),
    {
        proof {
            crate::num::lemma_half_double(self.spec_radius().width as int);
            crate::num::lemma_half_double(self.spec_radius().height as int);
        }
        Rect::from_center(self.center, self.radius.scale_uniform(2))
    }

    /// The circle of the given radius as an ellipse.
    pub fn from_circle(circle: Circle) -> (r: Ellipse)
        ensures
            r.spec_center() == circle.spec_center(),
            r.spec_radius().width == circle.spec_radius(),
            r.spec_radius().height == circle.spec_radius(),
    {
        let radius = circle.radius();
        Ellipse::new(circle.center(), Size::square(radius))
    }

    /// The ellipse displaced by a vector.
    pub fn plus(self, rhs: Vector) -> (r: Ellipse)
        requires
            i64::MIN <= self.spec_center().x + rhs.dx <= i64::MAX,
            i64::MIN <= self.spec_center().y + rhs.dy <= i64::MAX,
        ensures
            r.spec_center().x == self.spec_center().x + rhs.dx,
            r.spec_center().y == self.spec_center().y + rhs.dy,
            r.spec_radius() == self.spec_radius(),
    {
        Ellipse::new(self.center.plus(rhs), self.radius)
    }

    /// The ellipse displaced by the opposite of a vector.
    pub fn minus(self, rhs: Vector) -> (r: Ellipse)
        requires
            i64::MIN <= self.spec_center().x - rhs.dx <= i64::MAX,
            i64::MIN <= self.spec_center().y - rhs.dy <= i64::MAX,
        ensures
            r.spec_center().x == self.spec_center().x - rhs.dx,
            r.spec_center().y == self.spec_center().y - rhs.dy,
            r.spec_radius() == self.spec_radius(),
    {
        Ellipse::new(self.center.minus(rhs), self.radius)
    }

    /// The center passed through `f`, the radius kept.
    pub fn map_center<F: FnOnce(Point) -> Point>(self, f: F) -> (r: Ellipse)
        requires
            call_requires(f, (self.spec_center(),)),
        ensures
            call_ensures(f, (self.spec_center(),), r.spec_center()),
            r.spec_radius() == self.spec_radius(),
    {
        let center = f(self.center);
        Ellipse::new(center, self.radius)
    }

    /// The radius passed through `f`, the center kept.
    pub fn map_radius<F: FnOnce(Size) -> Size>(self, f: F) -> (r: Ellipse)
        requires
            call_requires(f, (self.spec_radius(),)),
        ensures
            r.spec_center() == self.spec_center(),
            call_ensures(f, (self.spec_radius(),), r.spec_radius()),
    {
        let radius = f(self.radius);
        Ellipse::new(self.center, radius)
    }
}

impl Default for Ellipse {
    /// The unit ellipse.
    fn default() -> (r: Ellipse)
        ensures
            r.spec_center() == (Point { x: 0, y: 0 }),
            r.spec_radius() == (Size { width: 1, height: 1 }),
    {
        Ellipse::unit()
    }
}

} // verus!
