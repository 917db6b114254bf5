//! Named locations on a rectangle (corners, edge midpoints, center) and a
//! point anchored at such a location.

use vstd::prelude::*;

use crate::num::half;
use crate::point::Point;
use crate::rect::Rect;
use crate::size::Size;
use crate::vector::Vector;

verus! {

#[derive(Clone, Copy, Debug, PartialEq, Eq, Structural)]
pub enum HorizontalLocation {
    Left,
    Center,
    Right,
}

impl HorizontalLocation {
    /// The horizontally mirrored location.
    pub open spec fn spec_neg(self) -> HorizontalLocation {
        match self {
            HorizontalLocation::Left => HorizontalLocation::Right,
            HorizontalLocation::Center => HorizontalLocation::Center,
            HorizontalLocation::Right => HorizontalLocation::Left,
        }
    }

    pub fn neg(self) -> (r: HorizontalLocation)
        ensures
            r == self.spec_neg(),
    {
        match self {
            HorizontalLocation::Left => HorizontalLocation::Right,
            HorizontalLocation::Center => HorizontalLocation::Center,
            HorizontalLocation::Right => HorizontalLocation::Left,
        }
    }
}

#[derive(Clone, Copy, Debug, PartialEq, Eq, Structural)]
pub enum VerticalLocation {
    Top,
    Center,
    Bottom,
}

impl VerticalLocation {
    /// The vertically mirrored location.
    pub open spec fn spec_neg(self) -> VerticalLocation {
        match self {
            VerticalLocation::Top => VerticalLocation::Bottom,
            VerticalLocation::Center => VerticalLocation::Center,
            VerticalLocation::Bottom => VerticalLocation::Top,
        }
    }

    pub fn neg(self) -> (r: VerticalLocation)
        ensures
            r == self.spec_neg(),
    {
        match self {
            VerticalLocation::Top => VerticalLocation::Bottom,
            VerticalLocation::Center => VerticalLocation::Center,
            VerticalLocation::Bottom => VerticalLocation::Top,
        }
    }
}

#[derive(Clone, Copy, Debug, PartialEq, Eq, Structural)]
pub struct RectLocation {
    pub horizontal: HorizontalLocation,
    pub vertical: VerticalLocation,
}

impl RectLocation {
    /// The location mirrored through the center.
    pub open spec fn spec_neg(self) -> RectLocation {
        RectLocation { horizontal: self.horizontal.spec_neg(), vertical: self.vertical.spec_neg() }
    }

    pub fn neg(self) -> (r: RectLocation)
        ensures
            r == self.spec_neg(),
    {
        RectLocation::new(self.horizontal.neg(), self.vertical.neg())
    }

    pub fn new(horizontal: HorizontalLocation, vertical: VerticalLocation) -> (r: RectLocation)
        ensures
            r.horizontal == horizontal,
            r.vertical == vertical,
    {
        RectLocation { horizontal, vertical }
    }

    pub fn left(vertical: VerticalLocation) -> (r: RectLocation)
        ensures
            r.horizontal == HorizontalLocation::Left,
            r.vertical == vertical,
    {
        RectLocation::new(HorizontalLocation::Left, vertical)
    }

    pub fn right(vertical: VerticalLocation) -> (r: RectLocation)
        ensures
            r.horizontal == HorizontalLocation::Right,
            r.vertical == vertical,
    {
        RectLocation::new(HorizontalLocation::Right, vertical)
    }

    pub fn top(horizontal: HorizontalLocation) -> (r: RectLocation)
        ensures
            r.horizontal == horizontal,
            r.vertical == VerticalLocation::Top,
    {
        RectLocation::new(horizontal, VerticalLocation::Top)
    }

    pub fn bottom(horizontal: HorizontalLocation) -> (r: RectLocation)
        ensures
            r.horizontal == horizontal,
            r.vertical == VerticalLocation::Bottom,
    {
        RectLocation::new(horizontal, VerticalLocation::Bottom)
    }

    pub fn top_left() -> (r: RectLocation)
        ensures
            r.horizontal == HorizontalLocation::Left,
            r.vertical == VerticalLocation::Top,
    {
        RectLocation::new(HorizontalLocation::Left, VerticalLocation::Top)
    }

    pub fn top_center() -> (r: RectLocation)
        ensures
            r.horizontal == HorizontalLocation::Center,
            r.vertical == VerticalLocation::Top,
    {
        RectLocation::new(HorizontalLocation::Center, VerticalLocation::Top)
    }

    pub fn top_right() -> (r: RectLocation)
        ensures
            r.horizontal == HorizontalLocation::Right,
            r.vertical == VerticalLocation::Top,
    {
        RectLocation::new(HorizontalLocation::Right, VerticalLocation::Top)
    }

    pub fn center_left() -> (r: RectLocation)
        ensures
            r.horizontal == HorizontalLocation::Left,
            r.vertical == VerticalLocation::Center,
    {
        RectLocation::new(HorizontalLocation::Left, VerticalLocation::Center)
    }

    pub fn center() -> (r: RectLocation)
        ensures
            r.horizontal == HorizontalLocation::Center,
            r.vertical == VerticalLocation::Center,
    {
        RectLocation::new(HorizontalLocation::Center, VerticalLocation::Center)
    }

    pub fn center_right() -> (r: RectLocation)
        ensures
            r.horizontal == HorizontalLocation::Right,
            r.vertical == VerticalLocation::Center,
    {
        RectLocation::new(HorizontalLocation::Right, VerticalLocation::Center)
    }

    pub fn bottom_left() -> (r: RectLocation)
        ensures
            r.horizontal == HorizontalLocation::Left,
            r.vertical == VerticalLocation::Bottom,
    {
        RectLocation::new(HorizontalLocation::Left, VerticalLocation::Bottom)
    }

    pub fn bottom_center() -> (r: RectLocation)
        ensures
            r.horizontal == HorizontalLocation::Center,
            r.vertical == VerticalLocation::Bottom,
    {
        RectLocation::new(HorizontalLocation::Center, VerticalLocation::Bottom)
    }

    pub fn bottom_right() -> (r: RectLocation)
        ensures
            r.horizontal == HorizontalLocation::Right,
            r.vertical == VerticalLocation::Bottom,
    {
        RectLocation::new(HorizontalLocation::Right, VerticalLocation::Bottom)
    }

    pub fn relocate_horizontal(self, horizontal: HorizontalLocation) -> (r: RectLocation)
        ensures
            r.horizontal == horizontal,
            r.vertical == self.vertical,
    {
        RectLocation::new(horizontal, self.vertical)
    }

    pub fn relocate_vertical(self, vertical: VerticalLocation) -> (r: RectLocation)
        ensures
            r.horizontal == self.horizontal,
            r.vertical == vertical,
    {
        RectLocation::new(self.horizontal, vertical)
    }

    /// The point of `rect` at this location.
    pub fn point_from_rect(self, rect: Rect) -> (r: Point)
        requires
            rect@.fits(),
        ensures
            r@ == rect@.point_at(self),
    {
        rect.point_at(self)
    }

    /// The position of `rect` anchored at this location.
    pub fn position_from_rect(self, rect: Rect) -> (r: RectPosition)
        requires
            rect@.fits(),
        ensures
            r.location == self,
            r.point@ == rect@.point_at(self),
    {
        rect.position_at(self)
    }
}

/// A point together with the rectangle location it is anchored at.
#[derive(Clone, Copy, Debug, PartialEq, Eq, Structural)]
pub struct RectPosition {
    pub location: RectLocation,
    pub point: Point,
}

/// The left edge of a rectangle of width `width` whose anchor of horizontal
/// kind `h` sits at `x` (truncating halves for centered anchors).
pub open spec fn spec_left_edge(x: int, h: HorizontalLocation, width: int) -> int {
    match h {
        HorizontalLocation::Left => x,
        HorizontalLocation::Center => x - half(width),
        HorizontalLocation::Right => x - width,
    }
}

/// The right edge of a rectangle of width `width` whose anchor of horizontal
/// kind `h` sits at `x`.
pub open spec fn spec_right_edge(x: int, h: HorizontalLocation, width: int) -> int {
    match h {
        HorizontalLocation::Left => x + width,
        HorizontalLocation::Center => x + half(width),
        HorizontalLocation::Right => x,
    }
}

/// The top edge of a rectangle of height `height` whose anchor of vertical
/// kind `v` sits at `y` (Y-down: the top lies `height` above the bottom).
pub open spec fn spec_top_edge(y: int, v: VerticalLocation, height: int) -> int {
    match v {
        VerticalLocation::Top => y,
        VerticalLocation::Center => y - half(height),
        VerticalLocation::Bottom => y - height,
    }
}

/// The bottom edge of a rectangle of height `height` whose anchor of vertical
/// kind `v` sits at `y`.
pub open spec fn spec_bottom_edge(y: int, v: VerticalLocation, height: int) -> int {
    match v {
        VerticalLocation::Top => y + height,
        VerticalLocation::Center => y + half(height),
        VerticalLocation::Bottom => y,
    }
}

impl RectPosition {
    /// The left edge of a rectangle of width `width` anchored at this
    /// position.
    pub open spec fn spec_left_with_width(self, width: int) -> int {
        spec_left_edge(self.point.x as int, self.location.horizontal, width)
    }

    /// The right edge of a rectangle of width `width` anchored at this
    /// position.
    pub open spec fn spec_right_with_width(self, width: int) -> int {
        spec_right_edge(self.point.x as int, self.location.horizontal, width)
    }

    /// The top edge of a rectangle of height `height` anchored at this
    /// position.
    pub open spec fn spec_top_with_height(self, height: int) -> int {
        spec_top_edge(self.point.y as int, self.location.vertical, height)
    }

    /// The bottom edge of a rectangle of height `height` anchored at this
    /// position.
    pub open spec fn spec_bottom_with_height(self, height: int) -> int {
        spec_bottom_edge(self.point.y as int, self.location.vertical, height)
    }

    pub fn new(location: RectLocation, point: Point) -> (r: RectPosition)
        ensures
            r.location == location,
            r.point == point,
    {
        RectPosition { location, point }
    }

    pub fn from_location_and_rect(location: RectLocation, rect: Rect) -> (r: RectPosition)
        requires
            rect@.fits(),
        ensures
            r.location == location,
            r.point@ == rect@.point_at(location),
    {
        location.position_from_rect(rect)
    }

    pub fn top_left(point: Point) -> (r: RectPosition)
        ensures
            r.location == (RectLocation { horizontal: HorizontalLocation::Left, vertical: VerticalLocation::Top }),
            r.point == point,
    {
        RectPosition::new(RectLocation::top_left(), point)
    }

    pub fn top_center(point: Point) -> (r: RectPosition)
        ensures
            r.location == (RectLocation { horizontal: HorizontalLocation::Center, vertical: VerticalLocation::Top }),
            r.point == point,
    {
        RectPosition::new(RectLocation::top_center(), point)
    }

    pub fn top_right(point: Point) -> (r: RectPosition)
        ensures
            r.location == (RectLocation { horizontal: HorizontalLocation::Right, vertical: VerticalLocation::Top }),
            r.point == point,
    {
        RectPosition::new(RectLocation::top_right(), point)
    }

    pub fn center_left(point: Point) -> (r: RectPosition)
        ensures
            r.location == (RectLocation { horizontal: HorizontalLocation::Left, vertical: VerticalLocation::Center }),
            r.point == point,
    {
        RectPosition::new(RectLocation::center_left(), point)
    }

    pub fn center(point: Point) -> (r: RectPosition)
        ensures
            r.location == (RectLocation { horizontal: HorizontalLocation::Center, vertical: VerticalLocation::Center }),
            r.point == point,
    {
        RectPosition::new(RectLocation::center(), point)
    }

    pub fn center_right(point: Point) -> (r: RectPosition)
        ensures
            r.location == (RectLocation { horizontal: HorizontalLocation::Right, vertical: VerticalLocation::Center }),
            r.point == point,
    {
        RectPosition::new(RectLocation::center_right(), point)
    }

    pub fn bottom_left(point: Point) -> (r: RectPosition)
        ensures
            r.location == (RectLocation { horizontal: HorizontalLocation::Left, vertical: VerticalLocation::Bottom }),
            r.point == point,
    {
        RectPosition::new(RectLocation::bottom_left(), point)
    }

    pub fn bottom_center(point: Point) -> (r: RectPosition)
        ensures
            r.location == (RectLocation { horizontal: HorizontalLocation::Center, vertical: VerticalLocation::Bottom }),
            r.point == point,
    {
        RectPosition::new(RectLocation::bottom_center(), point)
    }

    pub fn bottom_right(point: Point) -> (r: RectPosition)
        ensures
            r.location == (RectLocation { horizontal: HorizontalLocation::Right, vertical: VerticalLocation::Bottom }),
            r.point == point,
    {
        RectPosition::new(RectLocation::bottom_right(), point)
    }

    pub fn top_left_from_rect(rect: Rect) -> (r: RectPosition)
        requires
            rect@.fits(),
        ensures
            r.location == (RectLocation { horizontal: HorizontalLocation::Left, vertical: VerticalLocation::Top }),
            r.point@ == rect@.point_at((RectLocation { horizontal: HorizontalLocation::Left, vertical: VerticalLocation::Top })),
    {
        RectPosition::from_location_and_rect(RectLocation::top_left(), rect)
    }

    pub fn top_center_from_rect(rect: Rect) -> (r: RectPosition)
        requires
            rect@.fits(),
        ensures
            r.location == (RectLocation { horizontal: HorizontalLocation::Center, vertical: VerticalLocation::Top }),
            r.point@ == rect@.point_at((RectLocation { horizontal: HorizontalLocation::Center, vertical: VerticalLocation::Top })),
    {
        RectPosition::from_location_and_rect(RectLocation::top_center(), rect)
    }

    pub fn top_right_from_rect(rect: Rect) -> (r: RectPosition)
        requires
            rect@.fits(),
        ensures
            r.location == (RectLocation { horizontal: HorizontalLocation::Right, vertical: VerticalLocation::Top }),
            r.point@ == rect@.point_at((RectLocation { horizontal: HorizontalLocation::Right, vertical: VerticalLocation::Top })),
    {
        RectPosition::from_location_and_rect(RectLocation::top_right(), rect)
    }

    pub fn center_left_from_rect(rect: Rect) -> (r: RectPosition)
        requires
            rect@.fits(),
        ensures
            r.location == (RectLocation { horizontal: HorizontalLocation::Left, vertical: VerticalLocation::Center }),
            r.point@ == rect@.point_at((RectLocation { horizontal: HorizontalLocation::Left, vertical: VerticalLocation::Center })),
    {
        RectPosition::from_location_and_rect(RectLocation::center_left(), rect)
    }

    pub fn center_from_rect(rect: Rect) -> (r: RectPosition)
        requires
            rect@.fits(),
        ensures
            r.location == (RectLocation { horizontal: HorizontalLocation::Center, vertical: VerticalLocation::Center }),
            r.point@ == rect@.point_at((RectLocation { horizontal: HorizontalLocation::Center, vertical: VerticalLocation::Center })),
    {
        RectPosition::from_location_and_rect(RectLocation::center(), rect)
    }

    pub fn center_right_from_rect(rect: Rect) -> (r: RectPosition)
        requires
            rect@.fits(),
        ensures
            r.location == (RectLocation { horizontal: HorizontalLocation::Right, vertical: VerticalLocation::Center }),
            r.point@ == rect@.point_at((RectLocation { horizontal: HorizontalLocation::Right, vertical: VerticalLocation::Center })),
    {
        RectPosition::from_location_and_rect(RectLocation::center_right(), rect)
    }

    pub fn bottom_left_from_rect(rect: Rect) -> (r: RectPosition)
        requires
            rect@.fits(),
        ensures
            r.location == (RectLocation { horizontal: HorizontalLocation::Left, vertical: VerticalLocation::Bottom }),
            r.point@ == rect@.point_at((RectLocation { horizontal: HorizontalLocation::Left, vertical: VerticalLocation::Bottom })),
    {
        RectPosition::from_location_and_rect(RectLocation::bottom_left(), rect)
    }

    pub fn bottom_center_from_rect(rect: Rect) -> (r: RectPosition)
        requires
            rect@.fits(),
        ensures
            r.location == (RectLocation { horizontal: HorizontalLocation::Center, vertical: VerticalLocation::Bottom }),
            r.point@ == rect@.point_at((RectLocation { horizontal: HorizontalLocation::Center, vertical: VerticalLocation::Bottom })),
    {
        RectPosition::from_location_and_rect(RectLocation::bottom_center(), rect)
    }

    pub fn bottom_right_from_rect(rect: Rect) -> (r: RectPosition)
        requires
            rect@.fits(),
        ensures
            r.location == (RectLocation { horizontal: HorizontalLocation::Right, vertical: VerticalLocation::Bottom }),
            r.point@ == rect@.point_at((RectLocation { horizontal: HorizontalLocation::Right, vertical: VerticalLocation::Bottom })),
    {
        RectPosition::from_location_and_rect(RectLocation::bottom_right(), rect)
    }

    pub fn with_location(self, location: RectLocation) -> (r: RectPosition)
        ensures
            r.location == location,
            r.point == self.point,
    {
        RectPosition::new(location, self.point)
    }

    pub fn with_horizontal(self, horizontal: HorizontalLocation) -> (r: RectPosition)
        ensures
            r.location.horizontal == horizontal,
            r.location.vertical == self.location.vertical,
            r.point == self.point,
    {
        self.with_location(self.location.relocate_horizontal(horizontal))
    }

    pub fn with_vertical(self, vertical: VerticalLocation) -> (r: RectPosition)
        ensures
            r.location.horizontal == self.location.horizontal,
            r.location.vertical == vertical,
            r.point == self.point,
    {
        self.with_location(self.location.relocate_vertical(vertical))
    }

    pub fn with_point(self, point: Point) -> (r: RectPosition)
        ensures
            r.location == self.location,
            r.point == point,
    {
        RectPosition::new(self.location, point)
    }

    pub fn with_x(self, x: i64) -> (r: RectPosition)
        ensures
            r.location == self.location,
            r.point.x == x,
            r.point.y == self.point.y,
    {
        self.with_point(self.point.with_x(x))
    }

    pub fn with_y(self, y: i64) -> (r: RectPosition)
        ensures
            r.location == self.location,
            r.point.x == self.point.x,
            r.point.y == y,
    {
        self.with_point(self.point.with_y(y))
    }

    pub(crate) fn left_with_width(self, width: i64) -> (r: i64)
        requires
            self.point@.fits(),
            crate::num::fits(width as int),
        ensures
            r == self.spec_left_with_width(width as int),
    {
        match self.location.horizontal {
            HorizontalLocation::Left => self.point.x,
            HorizontalLocation::Center => self.point.x - crate::num::halved(width),
            HorizontalLocation::Right => self.point.x - width,
        }
    }

    pub(crate) fn right_with_width(self, width: i64) -> (r: i64)
        requires
            self.point@.fits(),
            crate::num::fits(width as int),
        ensures
            r == self.spec_right_with_width(width as int),
    {
        match self.location.horizontal {
            HorizontalLocation::Left => self.point.x + width,
            HorizontalLocation::Center => self.point.x + crate::num::halved(width),
            HorizontalLocation::Right => self.point.x,
        }
    }

    pub(crate) fn top_with_height(self, height: i64) -> (r: i64)
        requires
            self.point@.fits(),
            crate::num::fits(height as int),
        ensures
            r == self.spec_top_with_height(height as int),
    {
        match self.location.vertical {
            VerticalLocation::Top => self.point.y,
            VerticalLocation::Center => self.point.y - crate::num::halved(height),
            VerticalLocation::Bottom => self.point.y - height,
        }
    }

    pub(crate) fn bottom_with_height(self, height: i64) -> (r: i64)
        requires
            self.point@.fits(),
            crate::num::fits(height as int),
        ensures
            r == self.spec_bottom_with_height(height as int),
    {
        match self.location.vertical {
            VerticalLocation::Top => self.point.y + height,
            VerticalLocation::Center => self.point.y + crate::num::halved(height),
            VerticalLocation::Bottom => self.point.y,
        }
    }

    /// The rectangle of the given size anchored at this position.
    pub fn to_rect(self, size: Size) -> (r: Rect)
        requires
            self.point@.fits(),
            crate::num::fits(size.width as int),
            crate::num::fits(size.height as int),
        ensures
            r@.top == self.spec_top_with_height(size.height as int),
            r@.right == self.spec_right_with_width(size.width as int),
            r@.bottom == self.spec_bottom_with_height(size.height as int),
            r@.left == self.spec_left_with_width(size.width as int),
    {
        Rect::from_position(self, size)
    }

    /// The position displaced by a vector.
    pub fn plus(self, rhs: Vector) -> (r: RectPosition)
        requires
            i64::MIN <= self.point.x + rhs.dx <= i64::MAX,
            i64::MIN <= self.point.y + rhs.dy <= i64::MAX,
        ensures
            r.location == self.location,
            r.point.x == self.point.x + rhs.dx,
            r.point.y == self.point.y + rhs.dy,
    {
        RectPosition::new(self.location, self.point.plus(rhs))
    }

    /// The position displaced by the opposite of a vector.
    pub fn minus(self, rhs: Vector) -> (r: RectPosition)
        requires
            i64::MIN <= self.point.x - rhs.dx <= i64::MAX,
            i64::MIN <= self.point.y - rhs.dy <= i64::MAX,
        ensures
            r.location == self.location,
            r.point.x == self.point.x - rhs.dx,
            r.point.y == self.point.y - rhs.dy,
    {
        RectPosition::new(self.location, self.point.minus(rhs))
    }
}

} // verus!
