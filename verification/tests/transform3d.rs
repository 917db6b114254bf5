use geometry::point::Point;
use geometry::quad::Quad;
use geometry::rect::Rect;
use geometry::size::Size;
use geometry::transform::Transform;
use geometry::transform3d::Transform3d;
use geometry::vector::Vector;

#[test]
fn transforming_some_vectors() {
    assert_eq!(
        Transform3d::default().transform_vector(Vector::zero()),
        Vector { dx: 0, dy: 0 }
    );
    assert_eq!(
        Transform3d::default().transform_vector(Vector::new(42, -12)),
        Vector { dx: 42, dy: -12 }
    );
    assert_eq!(
        Transform3d::from(Transform::from_translation(1, 2)).transform_vector(Vector::zero()),
        Vector { dx: 1, dy: 2 }
    );
    assert_eq!(
        Transform3d::from(Transform::from_scale(1, 2)).transform_vector(Vector::new(3, 4)),
        Vector { dx: 3, dy: 8 }
    );
}

#[test]
fn truncation_preserves_2d_behaviour() {
    // Lifting any 2D transform to 4x4 and running a vector through the
    // lift-transform-truncate path agrees with the 2D application.
    let t = Transform::row_major(2, -1, 3, 5, 7, -4);
    let lifted = Transform3d::from(t);
    for v in [Vector::zero(), Vector::new(1, 0), Vector::new(-3, 9)] {
        assert_eq!(lifted.transform_vector(v), v.transform(t));
    }
}

#[test]
fn identity_composition_3d() {
    let t = Transform3d::row_major(1, 2, 3, 4, 5, 6, 7, 8, 9, 10, 11, 12, 13, 14, 15, 16);
    assert_eq!(t.post_mul(Transform3d::identity()), t);
    assert_eq!(Transform3d::identity().post_mul(t), t);
    assert_eq!(t.pre_mul(Transform3d::identity()), t);
}

#[test]
fn rect_to_quad_versus_rect_to_rect() {
    // A shear keeps the parallelogram's area at 100, but the 2D path returns
    // its axis-aligned bounding box, whose area is inflated to 200; the 3D
    // path keeps the four exact corners.
    let shear = Transform::row_major(1, 0, 1, 1, 0, 0);
    let square = Rect::from_top_left(Point::zero(), Size::square(10));

    let bounding = square.transform(shear);
    assert_eq!(bounding, Rect::from_top_right_bottom_left(0, 20, 10, 0));
    assert_eq!(bounding.size().area(), 200);

    let quad = Transform3d::from(shear).transform_rect(square);
    assert_eq!(
        quad,
        Quad::new(
            Point::new(0, 0),
            Point::new(10, 0),
            Point::new(20, 10),
            Point::new(10, 10),
        )
    );
}

#[test]
fn quad_bounding_box() {
    let quad = Quad::new(
        Point::new(0, 0),
        Point::new(10, 0),
        Point::new(20, 10),
        Point::new(10, 10),
    );
    assert_eq!(quad.aabb(), Rect::from_top_right_bottom_left(0, 20, 10, 0));
}

#[test]
fn scale_and_translation_3d() {
    let t = Transform3d::from_scale(2, 3, 4).post_mul(Transform3d::from_translation(1, 1, 1));
    assert_eq!(
        t,
        Transform3d::row_major(2, 0, 0, 0, 0, 3, 0, 0, 0, 0, 4, 0, 1, 1, 1, 1)
    );
    assert_eq!(t.transform_point(Point::new(1, 1)), Point::new(3, 4));
}
