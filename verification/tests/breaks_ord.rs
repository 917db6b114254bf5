use geometry::breaks_ord::BreaksOrd;

#[test]
fn is_orderable() {
    assert!(!(0 as i8).breaks_ord());
    assert!(!i8::MIN.breaks_ord());
    assert!(!i8::MAX.breaks_ord());

    assert!(!(0 as i16).breaks_ord());
    assert!(!i16::MIN.breaks_ord());
    assert!(!i16::MAX.breaks_ord());

    assert!(!(0 as i32).breaks_ord());
    assert!(!i32::MIN.breaks_ord());
    assert!(!i32::MAX.breaks_ord());

    assert!(!(0 as i64).breaks_ord());
    assert!(!i64::MIN.breaks_ord());
    assert!(!i64::MAX.breaks_ord());

    assert!(!(0 as i128).breaks_ord());
    assert!(!i128::MIN.breaks_ord());
    assert!(!i128::MAX.breaks_ord());

    assert!(!(0 as u8).breaks_ord());
    assert!(!u8::MIN.breaks_ord());
    assert!(!u8::MAX.breaks_ord());

    assert!(!(0 as u16).breaks_ord());
    assert!(!u16::MIN.breaks_ord());
    assert!(!u16::MAX.breaks_ord());

    assert!(!(0 as u32).breaks_ord());
    assert!(!u32::MIN.breaks_ord());
    assert!(!u32::MAX.breaks_ord());

    assert!(!(0 as u64).breaks_ord());
    assert!(!u64::MIN.breaks_ord());
    assert!(!u64::MAX.breaks_ord());

    assert!(!(0 as u128).breaks_ord());
    assert!(!u128::MIN.breaks_ord());
    assert!(!u128::MAX.breaks_ord());

    assert!(!(0 as isize).breaks_ord());
    assert!(!isize::MIN.breaks_ord());
    assert!(!isize::MAX.breaks_ord());

    assert!(!(0 as usize).breaks_ord());
    assert!(!usize::MIN.breaks_ord());
    assert!(!usize::MAX.breaks_ord());
}
