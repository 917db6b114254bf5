use geometry::circle::Circle;
use geometry::ellipse::Ellipse;
use geometry::point::Point;
use geometry::rect::Rect;
use geometry::size::Size;
use geometry::vector::Vector;

#[test]
fn bounding_rect() {
    let check = |center: Point, radius: Size| {
        let expected = Rect::from_center(center, radius.scale_uniform(2));
        let rect = Ellipse::new(center, radius).bounding_rect();
        assert_eq!(expected.right(), rect.right());
        assert_eq!(expected.left(), rect.left());
        assert_eq!(expected.top(), rect.top());
        assert_eq!(expected.bottom(), rect.bottom());
    };

    check(Point::zero(), Size::zero());
    check(Point::new(1, 1), Size::square(1));
    check(Point::new(2, 0), Size::square(1));
    check(Point::new(0, 6), Size::new(2, 3));
    check(Point::new(-2, 5), Size::new(4, 2));
}

#[test]
fn circle_bounding_rect() {
    let circle = Circle::new(Point::new(3, -1), 2);
    assert_eq!(
        circle.bounding_rect(),
        Rect::from_top_right_bottom_left(-3, 5, 1, 1)
    );
    assert_eq!(Circle::zero().bounding_rect(), Rect::zero());
}

#[test]
fn circle_construction() {
    assert_eq!(Circle::default(), Circle::unit());
    assert_eq!(Circle::from_radius(5).radius(), 5);
    assert_eq!(Circle::from_center(Point::new(1, 2)).center(), Point::new(1, 2));
    let moved = Circle::unit().plus(Vector::new(4, -3));
    assert_eq!(moved.center(), Point::new(4, -3));
    assert_eq!(moved.minus(Vector::new(4, -3)), Circle::unit());
    assert_eq!(Circle::unit().map_radius(|r| r * 10).radius(), 10);
    assert_eq!(
        Circle::unit().map_center(|c| c.with_x(7)).center(),
        Point::new(7, 0)
    );
}

#[test]
fn ellipse_radii() {
    let e = Ellipse::new(Point::zero(), Size::new(2, 3));
    assert_eq!(e.radius_squared(), Size::new(4, 9));
    assert_eq!(e.add_radius(Size::new(1, -1)).radius(), Size::new(3, 2));
    assert_eq!(e.scale_radius(Vector::new(2, 2)).radius(), Size::new(4, 6));
    assert_eq!(Ellipse::from_circle(Circle::new(Point::new(1, 1), 4)).radius(), Size::square(4));
    assert_eq!(e.plus(Vector::new(1, 1)).center(), Point::new(1, 1));
    assert_eq!(Ellipse::default(), Ellipse::unit());
}
