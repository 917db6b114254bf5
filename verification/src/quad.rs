//! Four points with no ordering or shape guarantee: the result of
//! transforming a rectangle by a transform that need not preserve
//! rectangularity.

use vstd::prelude::*;

use crate::num::{imax, imin, max2, min2};
use crate::point::Point;
use crate::rect::{Rect, RectView};

verus! {

#[derive(Clone, Copy, Debug, PartialEq, Eq, Structural)]
pub struct Quad {
    pub a: Point,
    pub b: Point,
    pub c: Point,
    pub d: Point,
}

impl Quad {
    pub fn new(a: Point, b: Point, c: Point, d: Point) -> (r: Quad)
        ensures
            r.a == a,
            r.b == b,
            r.c == c,
            r.d == d,
    {
        Quad { a, b, c, d }
    }

    /// The axis-aligned bounding box of the four points.
    pub fn aabb(&self) -> (r: Rect)
        ensures
            r@ == (RectView {
                top: min2(
                    min2(self.a.y as int, self.b.y as int),
                    min2(self.c.y as int, self.d.y as int),
                ),
                right: max2(
                    max2(self.a.x as int, self.b.x as int),
                    max2(self.c.x as int, self.d.x as int),
                ),
                bottom: max2(
                    max2(self.a.y as int, self.b.y as int),
                    max2(self.c.y as int, self.d.y as int),
                ),
                left: min2(
                    min2(self.a.x as int, self.b.x as int),
                    min2(self.c.x as int, self.d.x as int),
                ),
            }),
    {
        Rect::from_top_right_bottom_left(
            imin(imin(self.a.y, self.b.y), imin(self.c.y, self.d.y)),
            imax(imax(self.a.x, self.b.x), imax(self.c.x, self.d.x)),
            imax(imax(self.a.y, self.b.y), imax(self.c.y, self.d.y)),
            imin(imin(self.a.x, self.b.x), imin(self.c.x, self.d.x)),
        )
    }
}

} // verus!
