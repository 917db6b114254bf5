//! A directed line segment between two points.

use vstd::prelude::*;

use crate::point::Point;
use crate::vector::Vector;

verus! {

#[derive(Clone, Copy, Debug, PartialEq, Eq, Structural)]
pub struct LineSegment {
    pub from: Point,
    pub to: Point,
}

impl LineSegment {
    pub fn new(from: Point, to: Point) -> (r: LineSegment)
        ensures
            r.from == from,
            r.to == to,
    {
        LineSegment { from, to }
    }

    /// The displacement from the segment's start to its end.
    pub fn vector(&self) -> (r: Vector)
        requires
            i64::MIN <= self.to.x - self.from.x <= i64::MAX,
            i64::MIN <= self.to.y - self.from.y <= i64::MAX,
        ensures
            r.dx == self.to.x - self.from.x,
            r.dy == self.to.y - self.from.y,
    {
        self.to.minus_point(self.from)
    }
}

} // verus!
