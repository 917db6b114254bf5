use geometry::minmax::{partial_max, partial_min, Max, Min};

#[test]
fn max_it_works() {
    let three = 3i32;
    let four = 4i32;
    assert_eq!(Max::max(three, four), 4);
    assert_eq!(Max::max(four, three), 4);
    assert_eq!(Max::max(three, three), 3);
}

#[test]
fn max_pointer_identity() {
    let three = std::rc::Rc::new(3);
    let three_again = std::rc::Rc::new(3);
    assert_eq!(*Max::max(&*three, &*three_again), 3);
    let ours: &i32 = Max::max(&*three, &*three_again);
    let std_max: &i32 = std::cmp::Ord::max(&*three, &*three_again);
    assert!(std::ptr::eq(ours, std_max));
    let ours: &i32 = Max::max(&*three_again, &*three);
    let std_max: &i32 = std::cmp::Ord::max(&*three_again, &*three);
    assert!(std::ptr::eq(ours, std_max));
}

#[test]
fn min_it_works() {
    let three = 3i32;
    let four = 4i32;
    assert_eq!(Min::min(three, four), 3);
    assert_eq!(Min::min(four, three), 3);
    assert_eq!(Min::min(three, three), 3);
}

#[test]
fn min_pointer_identity() {
    let three = std::rc::Rc::new(3);
    let three_again = std::rc::Rc::new(3);
    assert_eq!(*Min::min(&*three, &*three_again), 3);
    let ours: &i32 = Min::min(&*three, &*three_again);
    let std_min: &i32 = std::cmp::Ord::min(&*three, &*three_again);
    assert!(std::ptr::eq(ours, std_min));
    let ours: &i32 = Min::min(&*three_again, &*three);
    let std_min: &i32 = std::cmp::Ord::min(&*three_again, &*three);
    assert!(std::ptr::eq(ours, std_min));
}

#[test]
fn partial_min_max_totals() {
    assert_eq!(partial_min(3, 4), Some(3));
    assert_eq!(partial_min(4, 3), Some(3));
    assert_eq!(partial_min(-5, -5), Some(-5));
    assert_eq!(partial_max(3, 4), Some(4));
    assert_eq!(partial_max(4, 3), Some(4));
    assert_eq!(partial_max(-5, -5), Some(-5));
}

#[test]
fn minmax_unsigned() {
    assert_eq!(Min::min(7u64, 9u64), 7);
    assert_eq!(Max::max(7u64, 9u64), 9);
    assert_eq!(Min::min(7usize, 9usize), 7);
    assert_eq!(Max::max(7usize, 9usize), 9);
    assert_eq!(Min::min(-8i64, 2i64), -8);
    assert_eq!(Max::max(-8i64, 2i64), 2);
}
