use geometry::rect::Rect;
use geometry::rect_position::{
    HorizontalLocation, RectLocation, RectPosition, VerticalLocation,
};
use geometry::vector::Vector;

#[test]
fn horizontal_location_neg() {
    let left = HorizontalLocation::Left;
    let center = HorizontalLocation::Center;
    let right = HorizontalLocation::Right;
    assert_eq!(left, right.neg());
    assert_eq!(right, left.neg());
    assert_eq!(center, center.neg());
}

#[test]
fn vertical_location_neg() {
    let top = VerticalLocation::Top;
    let center = VerticalLocation::Center;
    let bottom = VerticalLocation::Bottom;
    assert_eq!(top, bottom.neg());
    assert_eq!(bottom, top.neg());
    assert_eq!(center, center.neg());
}

#[test]
fn rect_location_neg() {
    assert_eq!(RectLocation::top_left(), RectLocation::bottom_right().neg());
    assert_eq!(
        RectLocation::top_center(),
        RectLocation::bottom_center().neg()
    );
    assert_eq!(RectLocation::top_right(), RectLocation::bottom_left().neg());
    assert_eq!(
        RectLocation::center_left(),
        RectLocation::center_right().neg()
    );
    assert_eq!(RectLocation::center(), RectLocation::center().neg());
}

#[test]
fn rect_location_point_from_rect() {
    let left = -1;
    let top = 4;
    let right = 3;
    let bottom = -2;
    let center_x = (left + right) / 2;
    let center_y = (top + bottom) / 2;
    let rect = Rect::new(top, right, bottom, left);

    let top_left = RectLocation::top_left().point_from_rect(rect);
    assert_eq!(top_left.x, left);
    assert_eq!(top_left.y, top);
    let top_center = RectLocation::top_center().point_from_rect(rect);
    assert_eq!(top_center.x, center_x);
    assert_eq!(top_center.y, top);
    let top_right = RectLocation::top_right().point_from_rect(rect);
    assert_eq!(top_right.x, right);
    assert_eq!(top_right.y, top);

    let center_left = RectLocation::center_left().point_from_rect(rect);
    assert_eq!(center_left.x, left);
    assert_eq!(center_left.y, center_y);
    let center = RectLocation::center().point_from_rect(rect);
    assert_eq!(center.x, center_x);
    assert_eq!(center.y, center_y);
    let center_right = RectLocation::center_right().point_from_rect(rect);
    assert_eq!(center_right.x, right);
    assert_eq!(center_right.y, center_y);

    let bottom_left = RectLocation::bottom_left().point_from_rect(rect);
    assert_eq!(bottom_left.x, left);
    assert_eq!(bottom_left.y, bottom);
    let bottom_center = RectLocation::bottom_center().point_from_rect(rect);
    assert_eq!(bottom_center.x, center_x);
    assert_eq!(bottom_center.y, bottom);
    let bottom_right = RectLocation::bottom_right().point_from_rect(rect);
    assert_eq!(bottom_right.x, right);
    assert_eq!(bottom_right.y, bottom);
}

#[test]
fn rect_position_offsets() {
    // Walking anchored positions by the rect's own extents, in the Y-down
    // convention: width to the right, height downward.
    let rect = Rect::new(-2, 3, 4, -1);
    let width_offset = Vector::new(rect.width(), 0);
    let height_offset = Vector::new(0, rect.height());
    assert_eq!(
        RectPosition::top_left_from_rect(rect).plus(width_offset).point,
        RectPosition::top_right_from_rect(rect).point
    );
    assert_eq!(
        RectPosition::top_left_from_rect(rect).plus(height_offset).point,
        RectPosition::bottom_left_from_rect(rect).point
    );
    assert_eq!(
        RectPosition::top_left_from_rect(rect).plus(width_offset).plus(height_offset).point,
        RectPosition::bottom_right_from_rect(rect).point
    );
    assert_eq!(
        RectPosition::bottom_right_from_rect(rect).minus(width_offset).minus(height_offset).point,
        RectPosition::top_left_from_rect(rect).point
    );
    assert_eq!(
        RectPosition::center_right_from_rect(rect).minus(width_offset).point,
        RectPosition::center_left_from_rect(rect).point
    );
    assert_eq!(
        RectPosition::center_from_rect(rect).plus(Vector::new(0, rect.height() / 2)).point,
        RectPosition::bottom_center_from_rect(rect).point
    );
}

#[test]
fn rect_position_rect_from_size() {
    let top = 4;
    let right = 3;
    let bottom = -2;
    let left = -1;
    let rect = Rect::new(top, right, bottom, left);

    assert_eq!(
        RectPosition::top_left_from_rect(rect).to_rect(rect.size()),
        rect
    );
    assert_eq!(
        RectPosition::top_center_from_rect(rect).to_rect(rect.size()),
        rect
    );
    assert_eq!(
        RectPosition::top_right_from_rect(rect).to_rect(rect.size()),
        rect
    );
    assert_eq!(
        RectPosition::center_left_from_rect(rect).to_rect(rect.size()),
        rect
    );
    assert_eq!(
        RectPosition::center_from_rect(rect).to_rect(rect.size()),
        rect
    );
    assert_eq!(
        RectPosition::center_right_from_rect(rect).to_rect(rect.size()),
        rect
    );
    assert_eq!(
        RectPosition::bottom_left_from_rect(rect).to_rect(rect.size()),
        rect
    );
    assert_eq!(
        RectPosition::bottom_left_from_rect(rect).to_rect(rect.size()),
        rect
    );
    assert_eq!(
        RectPosition::bottom_left_from_rect(rect).to_rect(rect.size()),
        rect
    );
}
