use geometry::mat3x2::Mat3x2;
use geometry::mat4::Mat4;
use geometry::point::Point;
use geometry::rect::Rect;
use geometry::vector::Vector;

#[test]
fn mat3x2_identity_and_composition() {
    let m = Mat3x2::row_major(1, 2, 3, 4, 5, 6);
    assert_eq!(m.post_mul(&Mat3x2::identity()), m);
    assert_eq!(Mat3x2::identity().post_mul(&m), m);
    assert_eq!(Mat3x2::default(), Mat3x2::identity());
}

#[test]
fn mat3x2_points_keep_translation_vectors_drop_it() {
    let m = Mat3x2::create_translation(1, 2);
    assert_eq!(m.transform_point(&Point::new(3, 4)), Point::new(4, 6));
    assert_eq!(m.transform_vector(&Vector::new(3, 4)), Vector::new(3, 4));
    let s = Mat3x2::create_scale(2, 3);
    assert_eq!(s.transform_vector(&Vector::new(3, 4)), Vector::new(6, 12));
}

#[test]
fn mat3x2_transform_rect_takes_bounding_box() {
    let shear = Mat3x2::row_major(1, 0, 1, 1, 0, 0);
    let square = Rect::from_top_right_bottom_left(0, 10, 10, 0);
    assert_eq!(
        shear.transform_rect(&square),
        Rect::from_top_right_bottom_left(0, 20, 10, 0)
    );
}

#[test]
fn mat3x2_ortho_unit_square() {
    assert_eq!(Mat3x2::ortho(-1, 1, -1, 1), Mat3x2::identity());
}

#[test]
fn mat3x2_to_mat4_embeds() {
    let m = Mat3x2::row_major(1, 2, 3, 4, 5, 6);
    assert_eq!(
        m.to_mat4(),
        Mat4::row_major(1, 2, 0, 0, 3, 4, 0, 0, 0, 0, 1, 0, 5, 6, 0, 1)
    );
}

#[test]
fn mat4_identity_and_composition() {
    let m = Mat4::row_major(1, 2, 3, 4, 5, 6, 7, 8, 9, 10, 11, 12, 13, 14, 15, 16);
    assert_eq!(m.post_mul(&Mat4::identity()), m);
    assert_eq!(Mat4::identity().post_mul(&m), m);
    assert_eq!(m.pre_mul(&Mat4::identity()), m);
    assert_eq!(Mat4::default(), Mat4::identity());
}

#[test]
fn mat4_scale_translate_wrappers() {
    let m = Mat4::identity().post_scale(2, 3, 4).post_translate(1, 2, 3);
    assert_eq!(
        m,
        Mat4::row_major(2, 0, 0, 0, 0, 3, 0, 0, 0, 0, 4, 0, 1, 2, 3, 1)
    );
    assert_eq!(
        Mat4::identity().pre_scale(2, 3, 4),
        Mat4::create_scale(2, 3, 4)
    );
    assert_eq!(
        Mat4::identity().pre_translate(1, 2, 3),
        Mat4::create_translation(1, 2, 3)
    );
}

#[test]
fn mat4_ortho_unit_cube() {
    assert_eq!(
        Mat4::ortho(-1, 1, -1, 1, -1, 1),
        Mat4::row_major(1, 0, 0, 0, 0, 1, 0, 0, 0, 0, -1, 0, 0, 0, 0, 1)
    );
}

#[test]
fn mat4_ortho_truncates() {
    // With edges 3 apart, every scale entry 2/3 truncates to 0 and each
    // translation entry is exactly -1.
    assert_eq!(
        Mat4::ortho(0, 3, 0, 3, 0, 3),
        Mat4::row_major(0, 0, 0, 0, 0, 0, 0, 0, 0, 0, 0, 0, -1, -1, -1, 1)
    );
}
