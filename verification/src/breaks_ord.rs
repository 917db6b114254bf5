//! Identifying values that would break a total ordering of their type. The
//! integer types are totally ordered, so no value of theirs does.

use vstd::prelude::*;

verus! {

/// Whether a value breaks a total ordering for its type.
pub trait BreaksOrd {
    spec fn spec_breaks_ord(&self) -> bool;

    fn breaks_ord(&self) -> (r: bool)
        ensures
            r == self.spec_breaks_ord(),
    ;
}

impl BreaksOrd for i32 {
    open spec fn spec_breaks_ord(&self) -> bool {
        false
    }

    fn breaks_ord(&self) -> (r: bool) {
        false
    }
}

impl BreaksOrd for i64 {
    open spec fn spec_breaks_ord(&self) -> bool {
        false
    }

    fn breaks_ord(&self) -> (r: bool) {
        false
    }
}

impl BreaksOrd for u32 {
    open spec fn spec_breaks_ord(&self) -> bool {
        false
    }

    fn breaks_ord(&self) -> (r: bool) {
        false
    }
}

impl BreaksOrd for u64 {
    open spec fn spec_breaks_ord(&self) -> bool {
        false
    }

    fn breaks_ord(&self) -> (r: bool) {
        false
    }
}

impl BreaksOrd for usize {
    open spec fn spec_breaks_ord(&self) -> bool {
        false
    }

    fn breaks_ord(&self) -> (r: bool) {
        false
    }
}

impl BreaksOrd for i8 {
    open spec fn spec_breaks_ord(&self) -> bool {
        false
    }

    fn breaks_ord(&self) -> (r: bool) {
        false
    }
}

impl BreaksOrd for i16 {
    open spec fn spec_breaks_ord(&self) -> bool {
        false
    }

    fn breaks_ord(&self) -> (r: bool) {
        false
    }
}

impl BreaksOrd for i128 {
    open spec fn spec_breaks_ord(&self) -> bool {
        false
    }

    fn breaks_ord(&self) -> (r: bool) {
        false
    }
}

impl BreaksOrd for u8 {
    open spec fn spec_breaks_ord(&self) -> bool {
        false
    }

    fn breaks_ord(&self) -> (r: bool) {
        false
    }
}

impl BreaksOrd for u16 {
    open spec fn spec_breaks_ord(&self) -> bool {
        false
    }

    fn breaks_ord(&self) -> (r: bool) {
        false
    }
}

impl BreaksOrd for u128 {
    open spec fn spec_breaks_ord(&self) -> bool {
        false
    }

    fn breaks_ord(&self) -> (r: bool) {
        false
    }
}

impl BreaksOrd for isize {
    open spec fn spec_breaks_ord(&self) -> bool {
        false
    }

    fn breaks_ord(&self) -> (r: bool) {
        false
    }
}

} // verus!
