use geometry::direction::{Cardinal, Direction};
use geometry::lerp::lerp_half;
use geometry::line_segment::LineSegment;
use geometry::ordinary_num::OrdinaryNum;
use geometry::point::Point;
use geometry::quantity::Quantity;
use geometry::scalar::Scalar;
use geometry::size::Size;
use geometry::split::Align;
use geometry::units::{Ratio, Unknown};
use geometry::vec2::Vec2;
use geometry::vec3::Vec3;
use geometry::vec4::Vec4;
use geometry::vector::Vector;

#[test]
fn vector_arithmetic() {
    let v = Vector::new(3, -4);
    assert_eq!(v.plus(Vector::new(1, 2)), Vector::new(4, -2));
    assert_eq!(v.minus(Vector::new(1, 2)), Vector::new(2, -6));
    assert_eq!(v.neg(), Vector::new(-3, 4));
    assert_eq!(v.scaled_by(2), Vector::new(6, -8));
    assert_eq!(v.dot_product(Vector::new(2, 1)), 2);
    assert_eq!(v.magnitude_squared(), 25);
    assert_eq!(v.perpendicular(), Vector::new(4, 3));
    assert_eq!(v.yx(), Vector::new(-4, 3));
    assert_eq!(v.map_dx(|x| x + 1), Vector::new(4, -4));
    assert_eq!(v.map_dy(|y| y - 1), Vector::new(3, -5));
    assert_eq!(Vector::from_array([7, 8]).to_tuple(), (7, 8));
}

#[test]
fn direction_offsets() {
    assert_eq!(Vector::from_direction(Direction::East), Vector::new(1, 0));
    assert_eq!(Vector::from_direction(Direction::North), Vector::new(0, -1));
    assert_eq!(Vector::from_cardinal(Cardinal::South), Vector::new(0, 1));
    assert_eq!(Direction::Northwest.neg(), Direction::Southeast);
    assert_eq!(Cardinal::East.neg(), Cardinal::West);
    assert_eq!(Direction::from_cardinal(Cardinal::North), Direction::North);
    assert_eq!(Direction::South.to_cardinal(), Some(Cardinal::South));
    assert_eq!(Direction::Southwest.to_cardinal(), None);
}

#[test]
fn point_arithmetic() {
    let p = Point::new(5, 7);
    assert_eq!(p.plus(Vector::new(1, -2)), Point::new(6, 5));
    assert_eq!(p.minus(Vector::new(1, -2)), Point::new(4, 9));
    assert_eq!(p.minus_point(Point::new(2, 2)), Vector::new(3, 5));
    assert_eq!(p.with_x(0), Point::new(0, 7));
    assert_eq!(p.to_vector().to_point(), p);
}

#[test]
fn size_measures() {
    let s = Size::new(6, -4);
    assert_eq!(s.area(), -24);
    assert_eq!(s.min_dim(), -4);
    assert_eq!(s.max_dim(), 6);
    assert!(s.is_landscape());
    assert!(!s.is_portrait());
    assert!(Size::square(5).is_square());
    assert_eq!(s.scale_uniform(2), Size::new(12, -8));
    assert_eq!(s.scale(Vector::new(2, 3)), Size::new(12, -12));
}

#[test]
fn vec_family_conversions() {
    let v2 = Vec2::new(1, 2);
    assert_eq!(v2.to_vec3(), Vec3::new(1, 2, 0));
    assert_eq!(v2.to_vec4(), Vec4::new(1, 2, 0, 0));
    assert_eq!(Vec2::from_vec3(Vec3::new(1, 2, 3)), v2);
    assert_eq!(Vec2::from_vec4(Vec4::new(1, 2, 3, 4)), v2);
    assert_eq!(Vec3::from_vec2(v2).to_vec4(), Vec4::new(1, 2, 0, 0));
    assert_eq!(Vec4::from_vector(Vector::new(1, 2)).to_vector(), Vector::new(1, 2));
    assert_eq!(v2.dot_product(Vec2::new(3, 4)), 11);
    assert_eq!(Vec3::new(1, 2, 3).dot_product(Vec3::new(4, 5, 6)), 32);
    assert_eq!(Vec4::new(1, 2, 3, 4).magnitude_squared(), 30);
    assert_eq!(v2.perpendicular(), Vec2::new(-2, 1));
    assert_eq!(v2.scaled(Size::new(10, 100)), Vec2::new(10, 200));
    assert_eq!(v2.map(|x| x * 10), Vec2::new(10, 20));
    assert_eq!(Vec3::new(1, 2, 3).map(|x| x - 1), Vec3::new(0, 1, 2));
    assert_eq!(Vec4::new(1, 2, 3, 4).map(|x| -x), Vec4::new(-1, -2, -3, -4));
    assert_eq!(Vector::new(1, 2).map(|x| x + 5), Vector::new(6, 7));
    assert_eq!(Point::new(1, 2).map(|x| x * x), Point::new(1, 4));
    assert_eq!(Size::new(4, 6).map(|x| x / 2), Size::new(2, 3));
}

#[test]
fn lerp_half_truncates_toward_zero() {
    assert_eq!(lerp_half(2, 4), 3);
    assert_eq!(lerp_half(2, 5), 3);
    assert_eq!(lerp_half(-3, 0), -1);
    assert_eq!(lerp_half(-3, -4), -3);
}

#[test]
fn ordinary_num_halving() {
    assert_eq!(i64::two(), 2);
    assert_eq!(7i64.halved(), 3);
    assert_eq!((-7i64).halved(), -3);
    assert_eq!(7u64.halved(), 3);
    assert_eq!(i32::two(), 2);
}

#[test]
fn quantity_tags() {
    let q: Quantity<i64, Unknown> = Quantity::new(5);
    assert_eq!(q.0, 5);
    assert_eq!(q.to_unknown().0, 5);
    let q: Quantity<i64, Unknown> = Quantity::new(5);
    let cast: Quantity<i64, Ratio<Unknown, Unknown>> = q.cast();
    assert_eq!(cast.reduce(), 5);
}

#[test]
fn scalar_wraps_value() {
    let s: Scalar<i64, Unknown> = Scalar::new(3);
    assert_eq!(s.into_inner(), 3);
    let s: Scalar<i32, Unknown> = Scalar::new(-9);
    assert_eq!(s.into_inner(), -9);
    assert_eq!(Scalar::<i64, Unknown>::new(3), Scalar::new(3));
    assert_ne!(Scalar::<i64, Unknown>::new(3), Scalar::new(4));
}

#[test]
fn align_variants_are_distinct() {
    assert_eq!(Align::Start, Align::Start);
    assert_ne!(Align::Start, Align::Center);
    assert_ne!(Align::Center, Align::End);
}

#[test]
fn line_segment_vector() {
    let seg = LineSegment::new(Point::new(1, 2), Point::new(4, -3));
    assert_eq!(seg.vector(), Vector::new(3, -5));
}
