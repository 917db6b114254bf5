//! An axis-aligned rectangle stored as its four edges, in the Y-down
//! convention (`top <= bottom` for an ordinary rectangle).

use vstd::prelude::*;

use crate::line_segment::LineSegment;
use crate::num::{fits, half, max2, min2, quot};
use crate::num::{halved, imax, imin};
use crate::point::{Point, PointView};
use crate::rect_position::{HorizontalLocation, RectLocation, RectPosition, VerticalLocation};
use crate::size::Size;
use crate::transform::{Transform, TransformView};
use crate::vector::{Vector, VectorView};

verus! {

/// The mathematical value of a [`Rect`]: its four edges as unbounded
/// integers.
#[verifier::ext_equal]
pub struct RectView {
    pub top: int,
    pub right: int,
    pub bottom: int,
    pub left: int,
}

impl RectView {
    pub open spec fn width(self) -> int {
        self.right - self.left
    }

    pub open spec fn height(self) -> int {
        self.bottom - self.top
    }

    pub open spec fn center_x(self) -> int {
        half(self.left + self.right)
    }

    pub open spec fn center_y(self) -> int {
        half(self.top + self.bottom)
    }

    /// The rect has positive extent on both axes.
    pub open spec fn has_area(self) -> bool {
        min2(self.width(), self.height()) > 0
    }

    pub open spec fn contains_x(self, x: int) -> bool {
        self.left <= x < self.right
    }

    pub open spec fn contains_y(self, y: int) -> bool {
        self.top <= y < self.bottom
    }

    pub open spec fn contains(self, p: PointView) -> bool {
        self.contains_x(p.x) && self.contains_y(p.y)
    }

    pub open spec fn contains_inclusive(self, p: PointView) -> bool {
        self.left <= p.x <= self.right && self.top <= p.y <= self.bottom
    }

    /// The point at a named location (truncating halves for centers).
    pub open spec fn point_at(self, location: RectLocation) -> PointView {
        PointView {
            x: match location.horizontal {
                HorizontalLocation::Left => self.left,
                HorizontalLocation::Center => self.center_x(),
                HorizontalLocation::Right => self.right,
            },
            y: match location.vertical {
                VerticalLocation::Top => self.top,
                VerticalLocation::Center => self.center_y(),
                VerticalLocation::Bottom => self.bottom,
            },
        }
    }

    /// The edge-wise intersection candidate (its area decides whether the
    /// rects intersect).
    pub open spec fn intersection(self, o: RectView) -> RectView {
        RectView {
            top: max2(self.top, o.top),
            right: min2(self.right, o.right),
            bottom: min2(self.bottom, o.bottom),
            left: max2(self.left, o.left),
        }
    }

    /// The smallest rect covering both rects.
    pub open spec fn union(self, o: RectView) -> RectView {
        RectView {
            top: min2(self.top, o.top),
            right: max2(self.right, o.right),
            bottom: max2(self.bottom, o.bottom),
            left: min2(self.left, o.left),
        }
    }

    /// The axis-aligned bounding box of the four transformed corners: the
    /// deliberately lossy result of transforming a rect in 2D.
    pub open spec fn transform_bounds(self, t: TransformView) -> RectView {
        let a = t.apply(VectorView { dx: self.left, dy: self.top });
        let b = t.apply(VectorView { dx: self.right, dy: self.top });
        let c = t.apply(VectorView { dx: self.right, dy: self.bottom });
        let d = t.apply(VectorView { dx: self.left, dy: self.bottom });
        RectView {
            top: min2(min2(a.dy, b.dy), min2(c.dy, d.dy)),
            right: max2(max2(a.dx, b.dx), max2(c.dx, d.dx)),
            bottom: max2(max2(a.dy, b.dy), max2(c.dy, d.dy)),
            left: min2(min2(a.dx, b.dx), min2(c.dx, d.dx)),
        }
    }

    /// All four edges within the coordinate range.
    pub open spec fn fits(self) -> bool {
        fits(self.top) && fits(self.right) && fits(self.bottom) && fits(self.left)
    }
}

/// The smallest x coordinate among the points (the sequence must be
/// non-empty).
pub open spec fn seq_min_x(s: Seq<Point>) -> int
    decreases s.len(),
{
    if s.len() <= 1 {
        s[0]@.x
    } else {
        min2(seq_min_x(s.drop_last()), s.last()@.x)
    }
}

/// The largest x coordinate among the points.
pub open spec fn seq_max_x(s: Seq<Point>) -> int
    decreases s.len(),
{
    if s.len() <= 1 {
        s[0]@.x
    } else {
        max2(seq_max_x(s.drop_last()), s.last()@.x)
    }
}

/// The smallest y coordinate among the points.
pub open spec fn seq_min_y(s: Seq<Point>) -> int
    decreases s.len(),
{
    if s.len() <= 1 {
        s[0]@.y
    } else {
        min2(seq_min_y(s.drop_last()), s.last()@.y)
    }
}

/// The largest y coordinate among the points.
pub open spec fn seq_max_y(s: Seq<Point>) -> int
    decreases s.len(),
{
    if s.len() <= 1 {
        s[0]@.y
    } else {
        max2(seq_max_y(s.drop_last()), s.last()@.y)
    }
}

#[derive(Clone, Copy, Debug, PartialEq, Eq, Structural)]
pub struct Rect {
    top: i64,
    right: i64,
    bottom: i64,
    left: i64,
}

impl View for Rect {
    type V = RectView;

    closed spec fn view(&self) -> RectView {
        RectView {
            top: self.top as int,
            right: self.right as int,
            bottom: self.bottom as int,
            left: self.left as int,
        }
    }
}

impl Rect {
    pub fn from_top_right_bottom_left(top: i64, right: i64, bottom: i64, left: i64) -> (r: Rect)
        ensures
            r@ == (RectView {
                top: top as int,
                right: right as int,
                bottom: bottom as int,
                left: left as int,
            }),
    {
        Rect { top, right, bottom, left }
    }

    /// The edges in clockwise order starting from the top.
    pub fn new(top: i64, right: i64, bottom: i64, left: i64) -> (r: Rect)
        ensures
            r@ == (RectView {
                top: top as int,
                right: right as int,
                bottom: bottom as int,
                left: left as int,
            }),
    {
        Rect::from_top_right_bottom_left(top, right, bottom, left)
    }

    pub fn zero() -> (r: Rect)
        ensures
            r@ == (RectView { top: 0, right: 0, bottom: 0, left: 0 }),
    {
        Rect::from_top_right_bottom_left(0, 0, 0, 0)
    }

    /// The rectangle of the given size anchored at `rect_position`.
    pub fn from_position(rect_position: RectPosition, size: Size) -> (r: Rect)
        requires
            rect_position.point@.fits(),
            fits(size.width as int),
            fits(size.height as int),
        ensures
            r@.top == rect_position.spec_top_with_height(size.height as int),
            r@.right == rect_position.spec_right_with_width(size.width as int),
            r@.bottom == rect_position.spec_bottom_with_height(size.height as int),
            r@.left == rect_position.spec_left_with_width(size.width as int),
    {
        let width = size.width();
        let height = size.height();
        Rect::from_top_right_bottom_left(
            rect_position.top_with_height(height),
            rect_position.right_with_width(width),
            rect_position.bottom_with_height(height),
            rect_position.left_with_width(width),
        )
    }

    pub fn from_top_left(top_left: Point, size: Size) -> (r: Rect)
        requires
            top_left@.fits(),
            fits(size.width as int),
            fits(size.height as int),
        ensures
            r@ == (RectView {
                top: top_left.y as int,
                right: top_left.x + size.width,
                bottom: top_left.y + size.height,
                left: top_left.x as int,
            }),
    {
        Rect::from_top_right_bottom_left(
            top_left.y,
            top_left.x + size.width,
            top_left.y + size.height,
            top_left.x,
        )
    }

    pub fn from_top_center(top_center: Point, size: Size) -> (r: Rect)
        requires
            top_center@.fits(),
            fits(size.width as int),
            fits(size.height as int),
        ensures
            r@ == (RectView {
                top: top_center.y as int,
                right: top_center.x + half(size.width as int),
                bottom: top_center.y + size.height,
                left: top_center.x - half(size.width as int),
            }),
    {
        let half_width = halved(size.width);
        Rect::from_top_right_bottom_left(
            top_center.y,
            top_center.x + half_width,
            top_center.y + size.height,
            top_center.x - half_width,
        )
    }

    pub fn from_top_right(top_right: Point, size: Size) -> (r: Rect)
        requires
            top_right@.fits(),
            fits(size.width as int),
            fits(size.height as int),
        ensures
            r@ == (RectView {
                top: top_right.y as int,
                right: top_right.x as int,
                bottom: top_right.y + size.height,
                left: top_right.x - size.width,
            }),
    {
        Rect::from_top_right_bottom_left(
            top_right.y,
            top_right.x,
            top_right.y + size.height,
            top_right.x - size.width,
        )
    }

    pub fn from_center_left(left_center: Point, size: Size) -> (r: Rect)
        requires
            left_center@.fits(),
            fits(size.width as int),
            fits(size.height as int),
        ensures
            r@ == (RectView {
                top: left_center.y - half(size.height as int),
                right: left_center.x + size.width,
                bottom: left_center.y + half(size.height as int),
                left: left_center.x as int,
            }),
    {
        let half_height = halved(size.height);
        Rect::from_top_right_bottom_left(
            left_center.y - half_height,
            left_center.x + size.width,
            left_center.y + half_height,
            left_center.x,
        )
    }

    pub fn from_center(center: Point, size: Size) -> (r: Rect)
        requires
            center@.fits(),
            fits(size.width as int),
            fits(size.height as int),
        ensures
            r@ == (RectView {
                top: center.y - half(size.height as int),
                right: center.x + half(size.width as int),
                bottom: center.y + half(size.height as int),
                left: center.x - half(size.width as int),
            }),
    {
        let half_width = halved(size.width);
        let half_height = halved(size.height);
        Rect::from_top_right_bottom_left(
            center.y - half_height,
            center.x + half_width,
            center.y + half_height,
            center.x - half_width,
        )
    }

    pub fn from_center_right(right_center: Point, size: Size) -> (r: Rect)
        requires
            right_center@.fits(),
            fits(size.width as int),
            fits(size.height as int),
        ensures
            r@ == (RectView {
                top: right_center.y - half(size.height as int),
                right: right_center.x as int,
                bottom: right_center.y + half(size.height as int),
                left: right_center.x - size.width,
            }),
    {
        let half_height = halved(size.height);
        Rect::from_top_right_bottom_left(
            right_center.y - half_height,
            right_center.x,
            right_center.y + half_height,
            right_center.x - size.width,
        )
    }

    pub fn from_bottom_right(bottom_right: Point, size: Size) -> (r: Rect)
        requires
            bottom_right@.fits(),
            fits(size.width as int),
            fits(size.height as int),
        ensures
            r@ == (RectView {
                top: bottom_right.y - size.height,
                right: bottom_right.x as int,
                bottom: bottom_right.y as int,
                left: bottom_right.x - size.width,
            }),
    {
        Rect::from_top_right_bottom_left(
            bottom_right.y - size.height,
            bottom_right.x,
            bottom_right.y,
            bottom_right.x - size.width,
        )
    }

    pub fn from_bottom_center(bottom_center: Point, size: Size) -> (r: Rect)
        requires
            bottom_center@.fits(),
            fits(size.width as int),
            fits(size.height as int),
        ensures
            r@ == (RectView {
                top: bottom_center.y - size.height,
                right: bottom_center.x + half(size.width as int),
                bottom: bottom_center.y as int,
                left: bottom_center.x - half(size.width as int),
            }),
    {
        let half_width = halved(size.width);
        Rect::from_top_right_bottom_left(
            bottom_center.y - size.height,
            bottom_center.x + half_width,
            bottom_center.y,
            bottom_center.x - half_width,
        )
    }

    pub fn from_bottom_left(bottom_left: Point, size: Size) -> (r: Rect)
        requires
            bottom_left@.fits(),
            fits(size.width as int),
            fits(size.height as int),
        ensures
            r@ == (RectView {
                top: bottom_left.y - size.height,
                right: bottom_left.x + size.width,
                bottom: bottom_left.y as int,
                left: bottom_left.x as int,
            }),
    {
        Rect::from_top_right_bottom_left(
            bottom_left.y - size.height,
            bottom_left.x + size.width,
            bottom_left.y,
            bottom_left.x,
        )
    }

    /// The axis-aligned bounding box of two points.
    pub fn from_points(a: Point, b: Point) -> (r: Rect)
        ensures
            r@ == (RectView {
                top: min2(a.y as int, b.y as int),
                right: max2(a.x as int, b.x as int),
                bottom: max2(a.y as int, b.y as int),
                left: min2(a.x as int, b.x as int),
            }),
    {
        Rect::from_top_right_bottom_left(
            imin(a.y, b.y),
            imax(a.x, b.x),
            imax(a.y, b.y),
            imin(a.x, b.x),
        )
    }

    /// The axis-aligned bounding box of all the points, or the zero rect when
    /// there are none.
    pub fn from_iter(points: &Vec<Point>) -> (r: Rect)
        ensures
            points@.len() == 0 ==> r@ == (RectView { top: 0, right: 0, bottom: 0, left: 0 }),
            points@.len() > 0 ==> r@ == (RectView {
                top: seq_min_y(points@),
                right: seq_max_x(points@),
                bottom: seq_max_y(points@),
                left: seq_min_x(points@),
            }),
    {
        if points.len() == 0 {
            return Rect::zero();
        }
        let first = points[0];
        let mut min_x = first.x;
        let mut max_x = first.x;
        let mut min_y = first.y;
        let mut max_y = first.y;
        let mut i: usize = 1;
        while i < points.len()
            invariant
                1 <= i <= points@.len(),
                points@.len() > 0,
                min_x == seq_min_x(points@.take(i as int)),
                max_x == seq_max_x(points@.take(i as int)),
                min_y == seq_min_y(points@.take(i as int)),
                max_y == seq_max_y(points@.take(i as int)),
            decreases points@.len() - i,
        {
            let p = points[i];
            proof {
                assert(points@.take(i + 1).drop_last() =~= points@.take(i as int));
                assert(points@.take(i + 1).last() == points@[i as int]);
            }
            min_x = imin(min_x, p.x);
            max_x = imax(max_x, p.x);
            min_y = imin(min_y, p.y);
            max_y = imax(max_y, p.y);
            i = i + 1;
        }
        proof {
            assert(points@.take(points@.len() as int) =~= points@);
        }
        Rect::from_top_right_bottom_left(min_y, max_x, max_y, min_x)
    }

    pub fn top(&self) -> (r: i64)
        ensures
            r == self@.top,
    {
        self.top
    }

    pub fn right(&self) -> (r: i64)
        ensures
            r == self@.right,
    {
        self.right
    }

    pub fn bottom(&self) -> (r: i64)
        ensures
            r == self@.bottom,
    {
        self.bottom
    }

    pub fn left(&self) -> (r: i64)
        ensures
            r == self@.left,
    {
        self.left
    }

    pub fn center_x(&self) -> (r: i64)
        requires
            self@.fits(),
        ensures
            r == self@.center_x(),
            fits(r as int),
    {
        proof {
            crate::num::lemma_half_fits(self@.left + self@.right);
        }
        halved(self.left + self.right)
    }

    pub fn center_y(&self) -> (r: i64)
        requires
            self@.fits(),
        ensures
            r == self@.center_y(),
            fits(r as int),
    {
        proof {
            crate::num::lemma_half_fits(self@.top + self@.bottom);
        }
        halved(self.top + self.bottom)
    }

    pub fn width(&self) -> (r: i64)
        requires
            self@.fits(),
        ensures
            r == self@.width(),
    {
        self.right - self.left
    }

    pub fn height(&self) -> (r: i64)
        requires
            self@.fits(),
        ensures
            r == self@.height(),
    {
        self.bottom - self.top
    }

    pub fn top_left(&self) -> (r: Point)
        ensures
            r.x == self@.left,
            r.y == self@.top,
    {
        Point::new(self.left, self.top)
    }

    pub fn top_center(&self) -> (r: Point)
        requires
            self@.fits(),
        ensures
            r.x == self@.center_x(),
            r.y == self@.top,
    {
        Point::new(self.center_x(), self.top)
    }

    pub fn top_right(&self) -> (r: Point)
        ensures
            r.x == self@.right,
            r.y == self@.top,
    {
        Point::new(self.right, self.top)
    }

    pub fn center_left(&self) -> (r: Point)
        requires
            self@.fits(),
        ensures
            r.x == self@.left,
            r.y == self@.center_y(),
    {
        Point::new(self.left, self.center_y())
    }

    pub fn center(&self) -> (r: Point)
        requires
            self@.fits(),
        ensures
            r.x == self@.center_x(),
            r.y == self@.center_y(),
    {
        Point::new(self.center_x(), self.center_y())
    }

    pub fn center_right(&self) -> (r: Point)
        requires
            self@.fits(),
        ensures
            r.x == self@.right,
            r.y == self@.center_y(),
    {
        Point::new(self.right, self.center_y())
    }

    pub fn bottom_left(&self) -> (r: Point)
        ensures
            r.x == self@.left,
            r.y == self@.bottom,
    {
        Point::new(self.left, self.bottom)
    }

    pub fn bottom_center(&self) -> (r: Point)
        requires
            self@.fits(),
        ensures
            r.x == self@.center_x(),
            r.y == self@.bottom,
    {
        Point::new(self.center_x(), self.bottom)
    }

    pub fn bottom_right(&self) -> (r: Point)
        ensures
            r.x == self@.right,
            r.y == self@.bottom,
    {
        Point::new(self.right, self.bottom)
    }

    /// The four corners in clockwise order from the top-left.
    pub fn clockwise_points(&self) -> (r: [Point; 4])
        ensures
            r[0]@ == (PointView { x: self@.left, y: self@.top }),
            r[1]@ == (PointView { x: self@.right, y: self@.top }),
            r[2]@ == (PointView { x: self@.right, y: self@.bottom }),
            r[3]@ == (PointView { x: self@.left, y: self@.bottom }),
    {
        [self.top_left(), self.top_right(), self.bottom_right(), self.bottom_left()]
    }

    /// The edges in clockwise order starting from the top.
    pub fn to_clockwise_array(&self) -> (r: [i64; 4])
        ensures
            r[0] == self@.top,
            r[1] == self@.right,
            r[2] == self@.bottom,
            r[3] == self@.left,
    {
        [self.top, self.right, self.bottom, self.left]
    }

    /// The edges in clockwise order starting from the top.
    pub fn to_clockwise_tuple(&self) -> (r: (i64, i64, i64, i64))
        ensures
            r.0 == self@.top,
            r.1 == self@.right,
            r.2 == self@.bottom,
            r.3 == self@.left,
    {
        (self.top, self.right, self.bottom, self.left)
    }

    pub fn size(&self) -> (r: Size)
        requires
            self@.fits(),
        ensures
            r.width == self@.width(),
            r.height == self@.height(),
    {
        Size::new(self.width(), self.height())
    }

    /// Returns `true` if the rect's area is greater than 0.
    pub fn has_area(&self) -> (r: bool)
        requires
            self@.fits(),
        ensures
            r == self@.has_area(),
    {
        self.size().min_dim() > 0
    }

    pub fn contains_x(&self, x: i64) -> (r: bool)
        ensures
            r == self@.contains_x(x as int),
    {
        self.left <= x && x < self.right
    }

    pub fn contains_y(&self, y: i64) -> (r: bool)
        ensures
            r == self@.contains_y(y as int),
    {
        self.top <= y && y < self.bottom
    }

    pub fn contains(&self, point: Point) -> (r: bool)
        ensures
            r == self@.contains(point@),
    {
        self.contains_x(point.x) && self.contains_y(point.y)
    }

    pub fn contains_inclusive_x(&self, x: i64) -> (r: bool)
        ensures
            r == (self@.left <= x <= self@.right),
    {
        self.left <= x && x <= self.right
    }

    pub fn contains_inclusive_y(&self, y: i64) -> (r: bool)
        ensures
            r == (self@.top <= y <= self@.bottom),
    {
        self.top <= y && y <= self.bottom
    }

    pub fn contains_inclusive(&self, point: Point) -> (r: bool)
        ensures
            r == self@.contains_inclusive(point@),
    {
        self.contains_inclusive_x(point.x) && self.contains_inclusive_y(point.y)
    }

    /// The rect grown just enough to cover `point`: unchanged when the point
    /// already lies inside (inclusive), otherwise the bounding box of the
    /// rect's extreme corners and the point.
    pub fn grow_to(&self, point: Point) -> (r: Rect)
        ensures
            self@.contains_inclusive(point@) ==> r == *self,
            !self@.contains_inclusive(point@) ==> r@ == (RectView {
                top: min2(min2(self@.bottom, self@.top), point.y as int),
                right: max2(max2(self@.right, self@.left), point.x as int),
                bottom: max2(max2(self@.bottom, self@.top), point.y as int),
                left: min2(min2(self@.right, self@.left), point.x as int),
            }),
    {
        if self.contains_inclusive(point) {
            *self
        } else {
            Rect::from_top_right_bottom_left(
                imin(imin(self.bottom, self.top), point.y),
                imax(imax(self.right, self.left), point.x),
                imax(imax(self.bottom, self.top), point.y),
                imin(imin(self.right, self.left), point.x),
            )
        }
    }

    pub fn point_at(&self, location: RectLocation) -> (r: Point)
        requires
            self@.fits(),
        ensures
            r@ == self@.point_at(location),
            r@.fits(),
    {
        let x = match location.horizontal {
            HorizontalLocation::Left => self.left(),
            HorizontalLocation::Center => self.center_x(),
            HorizontalLocation::Right => self.right(),
        };
        let y = match location.vertical {
            VerticalLocation::Top => self.top(),
            VerticalLocation::Center => self.center_y(),
            VerticalLocation::Bottom => self.bottom(),
        };
        Point::new(x, y)
    }

    pub fn position_at(&self, location: RectLocation) -> (r: RectPosition)
        requires
            self@.fits(),
        ensures
            r.location == location,
            r.point@ == self@.point_at(location),
            r.point@.fits(),
    {
        RectPosition::new(location, self.point_at(location))
    }

    /// Splits at a vertical line when it lies strictly inside the horizontal
    /// extent, returning the left and right parts.
    pub fn split_at_x(&self, x: i64) -> (r: Option<(Rect, Rect)>)
        ensures
            match r {
                Some(parts) => self@.contains_x(x as int) && parts.0@ == (RectView {
                    top: self@.top,
                    right: x as int,
                    bottom: self@.bottom,
                    left: self@.left,
                }) && parts.1@ == (RectView {
                    top: self@.top,
                    right: self@.right,
                    bottom: self@.bottom,
                    left: x as int,
                }),
                None => !self@.contains_x(x as int),
            },
    {
        if self.contains_x(x) {
            Some(
                (
                    Rect::from_top_right_bottom_left(self.top, x, self.bottom, self.left),
                    Rect::from_top_right_bottom_left(self.top, self.right, self.bottom, x),
                ),
            )
        } else {
            None
        }
    }

    /// Splits at a horizontal line when it lies strictly inside the vertical
    /// extent, returning the top and bottom parts.
    pub fn split_at_y(&self, y: i64) -> (r: Option<(Rect, Rect)>)
        ensures
            match r {
                Some(parts) => self@.contains_y(y as int) && parts.0@ == (RectView {
                    top: self@.top,
                    right: self@.right,
                    bottom: y as int,
                    left: self@.left,
                }) && parts.1@ == (RectView {
                    top: y as int,
                    right: self@.right,
                    bottom: self@.bottom,
                    left: self@.left,
                }),
                None => !self@.contains_y(y as int),
            },
    {
        if self.contains_y(y) {
            Some(
                (
                    Rect::from_top_right_bottom_left(self.top, self.right, y, self.left),
                    Rect::from_top_right_bottom_left(y, self.right, self.bottom, self.left),
                ),
            )
        } else {
            None
        }
    }

    /// The rect re-anchored so that it has the given position, keeping its
    /// size.
    pub fn with_position(&self, position: RectPosition) -> (r: Rect)
        requires
            self@.fits(),
            fits(self@.width()),
            fits(self@.height()),
            position.point@.fits(),
        ensures
            r@.top == position.spec_top_with_height(self@.height()),
            r@.right == position.spec_right_with_width(self@.width()),
            r@.bottom == position.spec_bottom_with_height(self@.height()),
            r@.left == position.spec_left_with_width(self@.width()),
    {
        Rect::from_position(position, self.size())
    }

    /// The rect resized while the point at `fixed_location` stays put.
    pub fn with_size(&self, size: Size, fixed_location: RectLocation) -> (r: Rect)
        requires
            self@.fits(),
            fits(size.width as int),
            fits(size.height as int),
        ensures
            ({
                let anchor = self@.point_at(fixed_location);
                r@.top == crate::rect_position::spec_top_edge(
                    anchor.y,
                    fixed_location.vertical,
                    size.height as int,
                ) && r@.right == crate::rect_position::spec_right_edge(
                    anchor.x,
                    fixed_location.horizontal,
                    size.width as int,
                ) && r@.bottom == crate::rect_position::spec_bottom_edge(
                    anchor.y,
                    fixed_location.vertical,
                    size.height as int,
                ) && r@.left == crate::rect_position::spec_left_edge(
                    anchor.x,
                    fixed_location.horizontal,
                    size.width as int,
                )
            }),
    {
        Rect::from_position(self.position_at(fixed_location), size)
    }

    /// The rect translated by a vector.
    pub fn translate(&self, offset: Vector) -> (r: Rect)
        requires
            self@.fits(),
            offset@.fits(),
        ensures
            r@ == (RectView {
                top: self@.top + offset.dy,
                right: self@.right + offset.dx,
                bottom: self@.bottom + offset.dy,
                left: self@.left + offset.dx,
            }),
    {
        Rect::from_top_right_bottom_left(
            self.top + offset.dy,
            self.right + offset.dx,
            self.bottom + offset.dy,
            self.left + offset.dx,
        )
    }

    pub fn translate_x(&self, offset_x: i64) -> (r: Rect)
        requires
            self@.fits(),
            fits(offset_x as int),
        ensures
            r@ == (RectView {
                top: self@.top,
                right: self@.right + offset_x,
                bottom: self@.bottom,
                left: self@.left + offset_x,
            }),
    {
        self.translate(Vector::from_dx(offset_x))
    }

    pub fn translate_y(&self, offset_y: i64) -> (r: Rect)
        requires
            self@.fits(),
            fits(offset_y as int),
        ensures
            r@ == (RectView {
                top: self@.top + offset_y,
                right: self@.right,
                bottom: self@.bottom + offset_y,
                left: self@.left,
            }),
    {
        self.translate(Vector::from_dy(offset_y))
    }

    /// The rect shrunk inward by the given amounts on each edge.
    pub fn inset(&self, top: i64, right: i64, bottom: i64, left: i64) -> (r: Rect)
        requires
            self@.fits(),
            fits(top as int),
            fits(right as int),
            fits(bottom as int),
            fits(left as int),
        ensures
            r@ == (RectView {
                top: self@.top + top,
                right: self@.right - right,
                bottom: self@.bottom - bottom,
                left: self@.left + left,
            }),
    {
        Rect::from_top_right_bottom_left(
            self.top + top,
            self.right - right,
            self.bottom - bottom,
            self.left + left,
        )
    }

    pub fn inset_symmetric(&self, horiz: i64, vert: i64) -> (r: Rect)
        requires
            self@.fits(),
            fits(horiz as int),
            fits(vert as int),
        ensures
            r@ == (RectView {
                top: self@.top + vert,
                right: self@.right - horiz,
                bottom: self@.bottom - vert,
                left: self@.left + horiz,
            }),
    {
        self.inset(vert, horiz, vert, horiz)
    }

    pub fn inset_uniform(&self, amount: i64) -> (r: Rect)
        requires
            self@.fits(),
            fits(amount as int),
        ensures
            r@ == (RectView {
                top: self@.top + amount,
                right: self@.right - amount,
                bottom: self@.bottom - amount,
                left: self@.left + amount,
            }),
    {
        self.inset_symmetric(amount, amount)
    }

    /// The rect grown outward by the given amounts on each edge.
    pub fn outset(&self, top: i64, right: i64, bottom: i64, left: i64) -> (r: Rect)
        requires
            self@.fits(),
            fits(top as int),
            fits(right as int),
            fits(bottom as int),
            fits(left as int),
        ensures
            r@ == (RectView {
                top: self@.top - top,
                right: self@.right + right,
                bottom: self@.bottom + bottom,
                left: self@.left - left,
            }),
    {
        Rect::from_top_right_bottom_left(
            self.top - top,
            self.right + right,
            self.bottom + bottom,
            self.left - left,
        )
    }

    pub fn outset_symmetric(&self, horiz: i64, vert: i64) -> (r: Rect)
        requires
            self@.fits(),
            fits(horiz as int),
            fits(vert as int),
        ensures
            r@ == (RectView {
                top: self@.top - vert,
                right: self@.right + horiz,
                bottom: self@.bottom + vert,
                left: self@.left - horiz,
            }),
    {
        self.outset(vert, horiz, vert, horiz)
    }

    pub fn outset_uniform(&self, amount: i64) -> (r: Rect)
        requires
            self@.fits(),
            fits(amount as int),
        ensures
            r@ == (RectView {
                top: self@.top - amount,
                right: self@.right + amount,
                bottom: self@.bottom + amount,
                left: self@.left - amount,
            }),
    {
        self.outset_symmetric(amount, amount)
    }

    /// Applies an affine transform and takes the axis-aligned bounding box of
    /// the four transformed corners: deliberately lossy for rotations and
    /// shears (the 3D path returns the exact corners as a `Quad` instead).
    pub fn transform(self, transform: Transform) -> (r: Rect)
        requires
            self@.fits(),
            transform@.fits(),
        ensures
            r@ == self@.transform_bounds(transform@),
    {
        let a = self.top_left().transform(transform);
        let b = self.top_right().transform(transform);
        let c = self.bottom_right().transform(transform);
        let d = self.bottom_left().transform(transform);
        Rect::from_top_right_bottom_left(
            imin(imin(a.y, b.y), imin(c.y, d.y)),
            imax(imax(a.x, b.x), imax(c.x, d.x)),
            imax(imax(a.y, b.y), imax(c.y, d.y)),
            imin(imin(a.x, b.x), imin(c.x, d.x)),
        )
    }

    /// The four edges as directed segments, clockwise from the top edge.
    pub fn line_segments(&self) -> (r: [LineSegment; 4])
        ensures
            r[0].from@ == (PointView { x: self@.left, y: self@.top }),
            r[0].to@ == (PointView { x: self@.right, y: self@.top }),
            r[1].from@ == (PointView { x: self@.right, y: self@.top }),
            r[1].to@ == (PointView { x: self@.right, y: self@.bottom }),
            r[2].from@ == (PointView { x: self@.right, y: self@.bottom }),
            r[2].to@ == (PointView { x: self@.left, y: self@.bottom }),
            r[3].from@ == (PointView { x: self@.left, y: self@.bottom }),
            r[3].to@ == (PointView { x: self@.left, y: self@.top }),
    {
        let top_left = self.top_left();
        let top_right = self.top_right();
        let bottom_right = self.bottom_right();
        let bottom_left = self.bottom_left();
        [
            LineSegment::new(top_left, top_right),
            LineSegment::new(top_right, bottom_right),
            LineSegment::new(bottom_right, bottom_left),
            LineSegment::new(bottom_left, top_left),
        ]
    }

    /// The intersection when it has positive area, `None` otherwise.
    pub fn intersection(&self, other: &Rect) -> (r: Option<Rect>)
        requires
            self@.fits(),
            other@.fits(),
        ensures
            match r {
                Some(c) => c@ == self@.intersection(other@) && c@.has_area(),
                None => !self@.intersection(other@).has_area(),
            },
    {
        let candidate = Rect::from_top_right_bottom_left(
            imax(self.top, other.top),
            imin(self.right, other.right),
            imin(self.bottom, other.bottom),
            imax(self.left, other.left),
        );
        if candidate.has_area() {
            Some(candidate)
        } else {
            None
        }
    }

    /// The smallest rect covering both rects.
    pub fn union(&self, other: &Rect) -> (r: Rect)
        ensures
            r@ == self@.union(other@),
    {
        Rect::from_top_right_bottom_left(
            imin(self.top, other.top),
            imax(self.right, other.right),
            imax(self.bottom, other.bottom),
            imin(self.left, other.left),
        )
    }

    /// The `index`-th of `num_items` equal-width vertical slices (the item
    /// width is the truncating quotient of the total width).
    pub fn width_slice(&self, num_items: usize, index: usize) -> (r: Rect)
        requires
            self@.fits(),
            0 < num_items,
            fits(num_items as int),
            fits(index as int),
        ensures
            ({
                let item_width = quot(self@.width(), num_items as int);
                let item_left = self@.left + index * item_width;
                r@ == (RectView {
                    top: self@.top,
                    right: item_left + item_width,
                    bottom: self@.bottom,
                    left: item_left,
                })
            }),
    {
        let item_width = self.width() / (num_items as i64);
        proof {
            crate::num::lemma_quot_abs(self@.width(), num_items as int);
            crate::num::lemma_mul_bounds(
                index as int,
                item_width as int,
                crate::num::COORD_MAX as int,
                2 * crate::num::COORD_MAX as int,
            );
        }
        let item_left = self.left + (index as i64) * item_width;
        Rect::from_top_right_bottom_left(
            self.top,
            item_left + item_width,
            self.bottom,
            item_left,
        )
    }

    /// The `index`-th of `num_items` equal-height horizontal slices.
    pub fn height_slice(&self, num_items: usize, index: usize) -> (r: Rect)
        requires
            self@.fits(),
            0 < num_items,
            fits(num_items as int),
            fits(index as int),
        ensures
            ({
                let item_height = quot(self@.height(), num_items as int);
                let item_top = self@.top + index * item_height;
                r@ == (RectView {
                    top: item_top,
                    right: self@.right,
                    bottom: item_top + item_height,
                    left: self@.left,
                })
            }),
    {
        let item_height = self.height() / (num_items as i64);
        proof {
            crate::num::lemma_quot_abs(self@.height(), num_items as int);
            crate::num::lemma_mul_bounds(
                index as int,
                item_height as int,
                crate::num::COORD_MAX as int,
                2 * crate::num::COORD_MAX as int,
            );
        }
        let item_top = self.top + (index as i64) * item_height;
        Rect::from_top_right_bottom_left(item_top, self.right, item_top + item_height, self.left)
    }
}

} // verus!
