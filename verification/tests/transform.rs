use geometry::direction::Direction;
use geometry::transform::{ScaledTransform, Transform};
use geometry::vector::Vector;

#[test]
fn identity_composition() {
    let t = Transform::row_major(1, 2, 3, 4, 5, 6);
    assert_eq!(t.post_mul(Transform::identity()), t);
    assert_eq!(Transform::identity().post_mul(t), t);
    assert_eq!(t.pre_mul(Transform::identity()), t);
}

#[test]
fn inverse_round_trip_unimodular() {
    let t = Transform::row_major(2, 1, 1, 1, 5, 7);
    let inv = t.inverse().unwrap();
    assert_eq!(
        inv,
        ScaledTransform { matrix: Transform::row_major(1, -1, -1, 2, 2, -9), denominator: 1 }
    );
    assert_eq!(t.post_mul(inv.matrix), Transform::identity());
}

#[test]
fn inverse_round_trip_reflection() {
    // The axis swap has determinant -1; its inverse is itself, here carried
    // as its negation over the denominator -1.
    let t = Transform::row_major(0, 1, 1, 0, 0, 0);
    let inv = t.inverse().unwrap();
    assert_eq!(
        inv,
        ScaledTransform { matrix: Transform::row_major(0, -1, -1, 0, 0, 0), denominator: -1 }
    );
    assert_eq!(t.post_mul(inv.matrix), Transform::from_scale(-1, -1));
}

#[test]
fn inverse_of_singular_is_none() {
    let t = Transform::row_major(1, 2, 2, 4, 0, 0);
    assert!(t.inverse().is_none());
}

#[test]
fn inverse_of_scales_is_rational() {
    // A uniform scale by 2 has determinant 4; its inverse is the halving
    // scale, carried exactly as diag(2, 2) over 4.
    let inv = Transform::from_scale(2, 2).inverse().unwrap();
    assert_eq!(
        inv,
        ScaledTransform { matrix: Transform::from_scale(2, 2), denominator: 4 }
    );
    assert_eq!(
        Transform::from_scale(2, 2).post_mul(inv.matrix),
        Transform::from_scale(4, 4)
    );
    // from_scale(2, 1): inverse diag(1/2, 1), carried as diag(1, 2) over 2.
    let inv = Transform::from_scale(2, 1).inverse().unwrap();
    assert_eq!(
        inv,
        ScaledTransform { matrix: Transform::row_major(1, 0, 0, 2, 0, 0), denominator: 2 }
    );
}

#[test]
fn quarter_turn_rotates_east_to_north() {
    // The quarter-turn rotation matrix about the origin, written out: with
    // the Y-down convention, East `(1, 0)` lands on North `(0, -1)`.
    let quarter = Transform::row_major(0, -1, 1, 0, 0, 0);
    let east = Vector::from_direction(Direction::East);
    let north = Vector::from_direction(Direction::North);
    let south = Vector::from_direction(Direction::South);
    assert_eq!(east.transform(quarter), north);
    // The opposite quarter turn lands East on South.
    let opposite = Transform::row_major(0, 1, -1, 0, 0, 0);
    assert_eq!(east.transform(opposite), south);
    // Two quarter turns make a half turn.
    assert_eq!(quarter.post_mul(quarter), Transform::from_scale(-1, -1));
}

#[test]
fn composition_wrappers() {
    let t = Transform::row_major(1, 2, 3, 4, 5, 6);
    assert_eq!(t.post_translate(10, 20), Transform::row_major(1, 2, 3, 4, 15, 26));
    assert_eq!(t.pre_translate(10, 20), Transform::row_major(1, 2, 3, 4, 75, 106));
    assert_eq!(t.post_scale(2, 3), Transform::row_major(2, 6, 6, 12, 10, 18));
    assert_eq!(t.pre_scale(2, 3), Transform::row_major(2, 4, 9, 12, 5, 6));
    assert_eq!(
        t.post_translate_vector(Vector::new(10, 20)),
        t.post_translate(10, 20)
    );
    assert_eq!(
        t.pre_scale_vector(Vector::new(2, 3)),
        t.pre_scale(2, 3)
    );
}

#[test]
fn composition_applies_in_order() {
    let a = Transform::from_translation(1, 2);
    let b = Transform::from_scale(3, 4);
    let v = Vector::new(5, 6);
    assert_eq!(v.transform(a.post_mul(b)), v.transform(a).transform(b));
    assert_eq!(v.transform(a.post_mul(b)), Vector::new(18, 32));
    assert_eq!(v.transform(b.post_mul(a)), Vector::new(16, 26));
    let c = Transform::row_major(1, 1, 0, 1, 2, 3);
    assert_eq!(a.post_mul(b).post_mul(c), a.post_mul(b.post_mul(c)));
}

#[test]
fn determinant_values() {
    assert_eq!(Transform::identity().determinant(), 1);
    assert_eq!(Transform::from_scale(2, 3).determinant(), 6);
    assert_eq!(Transform::row_major(0, -1, 1, 0, 0, 0).determinant(), 1);
    assert_eq!(Transform::from_translation(7, 9).determinant(), 1);
}

#[test]
fn transform_map_passes_every_entry() {
    assert_eq!(
        Transform::row_major(1, 2, 3, 4, 5, 6).map(|x| x * 2),
        Transform::row_major(2, 4, 6, 8, 10, 12)
    );
}

#[test]
fn transform_applies_translation_to_vectors() {
    let t = Transform::from_translation(1, 2);
    assert_eq!(Vector::zero().transform(t), Vector::new(1, 2));
    let p = geometry::point::Point::new(3, 4);
    assert_eq!(p.transform(t), geometry::point::Point::new(4, 6));
}
