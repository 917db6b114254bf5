use geometry::point::Point;
use geometry::rect::Rect;
use geometry::size::Size;

#[test]
fn points() {
    let top = -1;
    let right = 4;
    let bottom = 7;
    let left = -2;
    let center_x = 1;
    let center_y = 3;
    let width = 6;
    let height = 8;
    let rect = Rect::from_top_right_bottom_left(top, right, bottom, left);

    let rect_asserts = |rect: Rect| {
        assert_eq!(rect.top(), top);
        assert_eq!(rect.right(), right);
        assert_eq!(rect.bottom(), bottom);
        assert_eq!(rect.left(), left);
        assert_eq!(rect.width(), width);
        assert_eq!(rect.height(), height);

        assert_eq!(rect.top_left(), Point::new(left, top));
        assert_eq!(rect.top_center(), Point::new(center_x, top));
        assert_eq!(rect.top_right(), Point::new(right, top));
        assert_eq!(rect.center_left(), Point::new(left, center_y));
        assert_eq!(rect.center(), Point::new(center_x, center_y));
        assert_eq!(rect.center_right(), Point::new(right, center_y));
        assert_eq!(rect.bottom_left(), Point::new(left, bottom));
        assert_eq!(rect.bottom_center(), Point::new(center_x, bottom));
        assert_eq!(rect.bottom_right(), Point::new(right, bottom));
    };
    rect_asserts(rect);
    rect_asserts(Rect::from_top_left(
        Point::new(left, top),
        Size::new(width, height),
    ));
    rect_asserts(Rect::from_top_center(
        Point::new(center_x, top),
        Size::new(width, height),
    ));
    rect_asserts(Rect::from_top_right(
        Point::new(right, top),
        Size::new(width, height),
    ));
    rect_asserts(Rect::from_center_left(
        Point::new(left, center_y),
        Size::new(width, height),
    ));
    rect_asserts(Rect::from_center(
        Point::new(center_x, center_y),
        Size::new(width, height),
    ));
    rect_asserts(Rect::from_center_right(
        Point::new(right, center_y),
        Size::new(width, height),
    ));
    rect_asserts(Rect::from_bottom_left(
        Point::new(left, bottom),
        Size::new(width, height),
    ));
    rect_asserts(Rect::from_bottom_center(
        Point::new(center_x, bottom),
        Size::new(width, height),
    ));
    rect_asserts(Rect::from_bottom_right(
        Point::new(right, bottom),
        Size::new(width, height),
    ));

    assert_eq!(rect.size(), Size::new(width, height));
}

#[test]
fn has_area() {
    let normal = Rect::from_top_left(Point::zero(), Size::square(100));
    assert!(
        normal.has_area(),
        "erroneously found `{:?}` to have no area",
        normal
    );
    let empty = Rect::from_top_left(Point::new(50, 50), Size::zero());
    assert!(
        !empty.has_area(),
        "erroneously found `{:?}` to have an area",
        empty
    );
    let inverted = Rect::from_top_left(Point::zero(), Size::square(-100));
    assert!(
        !inverted.has_area(),
        "erroneously found `{:?}` to have an area",
        inverted
    );
}

#[test]
fn intersection() {
    let offset = Point::new(50, 50);
    let size = Size::square(100);
    let a = Rect::from_top_left(Point::zero(), size);
    let b = Rect::from_top_left(offset, size);
    let c = Rect::from_top_left(offset, size.minus(offset.to_vector()));
    assert_eq!(
        a.intersection(&b),
        Some(c),
        "erroneously found no intersection between `{:?}` and `{:?}`",
        a,
        b
    );
}

#[test]
fn grow_to() {
    let rect = Rect::from_top_left(Point::new(10, 10), Size::new(10, 10));
    assert_eq!(
        rect.grow_to(Point::new(0, 20)),
        Rect::from_top_left(Point::new(0, 10), Size::new(20, 10))
    );
    assert_eq!(
        rect.grow_to(Point::new(20, 0)),
        Rect::from_top_left(Point::new(10, 0), Size::new(10, 20))
    );
}

#[test]
fn no_intersection_without_overlap() {
    let a = Rect::from_top_left(Point::zero(), Size::square(10));
    let b = Rect::from_top_left(Point::new(10, 0), Size::square(10));
    assert_eq!(a.intersection(&b), None);
    assert_eq!(
        a.union(&b),
        Rect::from_top_left(Point::zero(), Size::new(20, 10))
    );
}

#[test]
fn bounding_box_of_points() {
    assert_eq!(Rect::from_iter(&Vec::new()), Rect::zero());
    let pts = vec![Point::new(1, 5), Point::new(-2, 3), Point::new(4, -1)];
    assert_eq!(
        Rect::from_iter(&pts),
        Rect::from_top_right_bottom_left(-1, 4, 5, -2)
    );
    assert_eq!(
        Rect::from_points(Point::new(4, -1), Point::new(-2, 5)),
        Rect::from_top_right_bottom_left(-1, 4, 5, -2)
    );
}

#[test]
fn splits_and_slices() {
    let rect = Rect::from_top_right_bottom_left(0, 10, 4, 0);
    let (l, r) = rect.split_at_x(3).unwrap();
    assert_eq!(l, Rect::from_top_right_bottom_left(0, 3, 4, 0));
    assert_eq!(r, Rect::from_top_right_bottom_left(0, 10, 4, 3));
    assert_eq!(rect.split_at_x(10), None);
    let (t, b) = rect.split_at_y(1).unwrap();
    assert_eq!(t, Rect::from_top_right_bottom_left(0, 10, 1, 0));
    assert_eq!(b, Rect::from_top_right_bottom_left(1, 10, 4, 0));

    assert_eq!(
        rect.width_slice(3, 0),
        Rect::from_top_right_bottom_left(0, 3, 4, 0)
    );
    assert_eq!(
        rect.width_slice(3, 2),
        Rect::from_top_right_bottom_left(0, 9, 4, 6)
    );
    assert_eq!(
        rect.height_slice(2, 1),
        Rect::from_top_right_bottom_left(2, 10, 4, 0)
    );
}

#[test]
fn line_segments_walk_clockwise() {
    let rect = Rect::from_top_right_bottom_left(0, 10, 4, 0);
    let segments = rect.line_segments();
    assert_eq!(segments[0].from, Point::new(0, 0));
    assert_eq!(segments[0].to, Point::new(10, 0));
    assert_eq!(segments[1].to, Point::new(10, 4));
    assert_eq!(segments[2].to, Point::new(0, 4));
    assert_eq!(segments[3].to, Point::new(0, 0));
}

#[test]
fn insets_and_outsets() {
    let rect = Rect::from_top_right_bottom_left(0, 10, 10, 0);
    assert_eq!(
        rect.inset_uniform(2),
        Rect::from_top_right_bottom_left(2, 8, 8, 2)
    );
    assert_eq!(rect.inset_uniform(2).outset_uniform(2), rect);
    assert_eq!(
        rect.translate(geometry::vector::Vector::new(3, -1)),
        Rect::from_top_right_bottom_left(-1, 13, 9, 3)
    );
}
