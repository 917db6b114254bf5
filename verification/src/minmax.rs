//! Two-place minimum and maximum with the same tie-breaking as `Ord::min`
//! and `Ord::max`, and total variants of the partial comparisons.

use vstd::prelude::*;

use crate::num::{max2, min2};

verus! {

/// The smaller of two values; on a tie, the first.
pub trait Min: Sized {
    spec fn spec_min(self, other: Self) -> Self;

    fn min(self, other: Self) -> (r: Self)
        ensures
            r == self.spec_min(other),
    ;
}

/// The larger of two values; on a tie, the second (as `Ord::max` has it).
pub trait Max: Sized {
    spec fn spec_max(self, other: Self) -> Self;

    fn max(self, other: Self) -> (r: Self)
        ensures
            r == self.spec_max(other),
    ;
}

impl Min for i32 {
    open spec fn spec_min(self, other: i32) -> i32 {
        if self <= other {
            self
        } else {
            other
        }
    }

    fn min(self, other: i32) -> (r: i32) {
        if self <= other {
            self
        } else {
            other
        }
    }
}

impl Max for i32 {
    open spec fn spec_max(self, other: i32) -> i32 {
        if self > other {
            self
        } else {
            other
        }
    }

    fn max(self, other: i32) -> (r: i32) {
        if self > other {
            self
        } else {
            other
        }
    }
}

impl Min for i64 {
    open spec fn spec_min(self, other: i64) -> i64 {
        if self <= other {
            self
        } else {
            other
        }
    }

    fn min(self, other: i64) -> (r: i64) {
        if self <= other {
            self
        } else {
            other
        }
    }
}

impl Max for i64 {
    open spec fn spec_max(self, other: i64) -> i64 {
        if self > other {
            self
        } else {
            other
        }
    }

    fn max(self, other: i64) -> (r: i64) {
        if self > other {
            self
        } else {
            other
        }
    }
}

impl Min for u64 {
    open spec fn spec_min(self, other: u64) -> u64 {
        if self <= other {
            self
        } else {
            other
        }
    }

    fn min(self, other: u64) -> (r: u64) {
        if self <= other {
            self
        } else {
            other
        }
    }
}

impl Max for u64 {
    open spec fn spec_max(self, other: u64) -> u64 {
        if self > other {
            self
        } else {
            other
        }
    }

    fn max(self, other: u64) -> (r: u64) {
        if self > other {
            self
        } else {
            other
        }
    }
}

impl Min for usize {
    open spec fn spec_min(self, other: usize) -> usize {
        if self <= other {
            self
        } else {
            other
        }
    }

    fn min(self, other: usize) -> (r: usize) {
        if self <= other {
            self
        } else {
            other
        }
    }
}

impl Max for usize {
    open spec fn spec_max(self, other: usize) -> usize {
        if self > other {
            self
        } else {
            other
        }
    }

    fn max(self, other: usize) -> (r: usize) {
        if self > other {
            self
        } else {
            other
        }
    }
}

impl<'a> Min for &'a i32 {
    open spec fn spec_min(self, other: &'a i32) -> &'a i32 {
        if *self <= *other {
            self
        } else {
            other
        }
    }

    fn min(self, other: &'a i32) -> (r: &'a i32) {
        if *self <= *other {
            self
        } else {
            other
        }
    }
}

impl<'a> Max for &'a i32 {
    open spec fn spec_max(self, other: &'a i32) -> &'a i32 {
        if *self > *other {
            self
        } else {
            other
        }
    }

    fn max(self, other: &'a i32) -> (r: &'a i32) {
        if *self > *other {
            self
        } else {
            other
        }
    }
}

/// The smaller of two values; always `Some` for a total order.
pub fn partial_min(a: i64, b: i64) -> (r: Option<i64>)
    ensures
        r == Some((min2(a as int, b as int)) as i64),
{
    if a <= b {
        Some(a)
    } else {
        Some(b)
    }
}

/// The larger of two values; always `Some` for a total order.
pub fn partial_max(a: i64, b: i64) -> (r: Option<i64>)
    ensures
        r == Some((max2(a as int, b as int)) as i64),
{
    if a >= b {
        Some(a)
    } else {
        Some(b)
    }
}

} // verus!
