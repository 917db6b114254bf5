//! A scalar tagged at the type level with the unit it is measured in.

use vstd::prelude::*;

use core::marker::PhantomData;

verus! {

/// A value of type `T` carrying a phantom `Unit` tag. Equality and hashing
/// go by the wrapped value; the tag has no bearing.
#[derive(Debug, PartialEq, Eq, Hash)]
#[verifier::reject_recursive_types(Unit)]
pub struct Scalar<T, Unit> {
    t: T,
    unit: PhantomData<Unit>,
}

impl<T, Unit> Scalar<T, Unit> {
    pub closed spec fn value(self) -> T {
        self.t
    }

    pub fn new(t: T) -> (r: Scalar<T, Unit>)
        ensures
            r.value() == t,
    {
        Scalar { t, unit: PhantomData }
    }

    /// The wrapped value.
    pub fn into_inner(self) -> (r: T)
        ensures
            r == self.value(),
    {
        self.t
    }
}

} // verus!
