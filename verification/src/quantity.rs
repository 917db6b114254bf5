//! A value tagged at the type level with the unit it is measured in.

use vstd::prelude::*;

use core::marker::PhantomData;

use crate::units::{Ratio, Unknown};

verus! {

/// A value of type `T` measured in `Unit`.
#[verifier::reject_recursive_types(Unit)]
pub struct Quantity<T, Unit>(pub T, pub PhantomData<Unit>);

impl<T, Unit> Quantity<T, Unit> {
    pub fn new(value: T) -> (r: Quantity<T, Unit>)
        ensures
            r.0 == value,
    {
        Quantity(value, PhantomData)
    }

    /// Drops the unit tag.
    pub fn to_unknown(self) -> (r: Quantity<T, Unknown>)
        ensures
            r.0 == self.0,
    {
        Quantity::new(self.0)
    }

    /// Re-tags the value with another unit.
    pub fn cast<U>(self) -> (r: Quantity<T, U>)
        ensures
            r.0 == self.0,
    {
        Quantity::new(self.0)
    }
}

impl<T, U> Quantity<T, Ratio<U, U>> {
    /// A ratio of a unit to itself is a bare scalar.
    pub fn reduce(self) -> (r: T)
        ensures
            r == self.0,
    {
        self.0
    }
}

impl<N, D> Quantity<i64, Ratio<N, D>> {
    /// The reciprocal quantity, in the reciprocal unit, under truncating
    /// division (so `0` for any magnitude above `1`).
    pub fn inverse(self) -> (r: Quantity<i64, Ratio<D, N>>)
        requires
            self.0 != 0,
        ensures
            r.0 == crate::num::quot(1, self.0 as int),
    {
        proof {
            crate::num::lemma_quot_abs(1, self.0 as int);
        }
        Quantity::new(1 / self.0)
    }
}

} // verus!
