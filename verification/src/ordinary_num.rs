//! The small-constant and halving vocabulary shared by the scalar types of
//! the library.

use vstd::prelude::*;

verus! {

/// Small named constants and exact halving for a scalar type.
pub trait OrdinaryNum: Sized {
    spec fn spec_small(n: int) -> Self;

    spec fn spec_halved(self) -> Self;

    fn two() -> (r: Self)
        ensures
            r == Self::spec_small(2),
    ;

    fn three() -> (r: Self)
        ensures
            r == Self::spec_small(3),
    ;

    fn four() -> (r: Self)
        ensures
            r == Self::spec_small(4),
    ;

    fn five() -> (r: Self)
        ensures
            r == Self::spec_small(5),
    ;

    fn six() -> (r: Self)
        ensures
            r == Self::spec_small(6),
    ;

    fn seven() -> (r: Self)
        ensures
            r == Self::spec_small(7),
    ;

    /// Half of the value, rounded toward zero.
    fn halved(self) -> (r: Self)
        ensures
            r == self.spec_halved(),
    ;
}

impl OrdinaryNum for i32 {
    open spec fn spec_small(n: int) -> i32 {
        n as i32
    }

    open spec fn spec_halved(self) -> i32 {
        (crate::num::half(self as int)) as i32
    }

    fn two() -> (r: i32) {
        2
    }

    fn three() -> (r: i32) {
        3
    }

    fn four() -> (r: i32) {
        4
    }

    fn five() -> (r: i32) {
        5
    }

    fn six() -> (r: i32) {
        6
    }

    fn seven() -> (r: i32) {
        7
    }

    fn halved(self) -> (r: i32) {
        self / 2
    }
}

impl OrdinaryNum for i64 {
    open spec fn spec_small(n: int) -> i64 {
        n as i64
    }

    open spec fn spec_halved(self) -> i64 {
        (crate::num::half(self as int)) as i64
    }

    fn two() -> (r: i64) {
        2
    }

    fn three() -> (r: i64) {
        3
    }

    fn four() -> (r: i64) {
        4
    }

    fn five() -> (r: i64) {
        5
    }

    fn six() -> (r: i64) {
        6
    }

    fn seven() -> (r: i64) {
        7
    }

    fn halved(self) -> (r: i64) {
        self / 2
    }
}

impl OrdinaryNum for u64 {
    open spec fn spec_small(n: int) -> u64 {
        n as u64
    }

    open spec fn spec_halved(self) -> u64 {
        self / 2
    }

    fn two() -> (r: u64) {
        2
    }

    fn three() -> (r: u64) {
        3
    }

    fn four() -> (r: u64) {
        4
    }

    fn five() -> (r: u64) {
        5
    }

    fn six() -> (r: u64) {
        6
    }

    fn seven() -> (r: u64) {
        7
    }

    fn halved(self) -> (r: u64) {
        self / 2
    }
}

} // verus!
