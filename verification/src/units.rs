//! Type-level unit bookkeeping: marker types standing for units, and traits
//! computing the unit of a product or quotient.

use vstd::prelude::*;

use core::marker::PhantomData;

verus! {

/// The unit of the product of a quantity in `Self` and one in `T`.
pub trait TypeMul<T> {
    type Output;
}

/// The unit of the quotient of a quantity in `Self` by one in `T`.
pub trait TypeDiv<T> {
    type Output;
}

/// The unit of a bare scalar: multiplying or dividing by it changes nothing.
#[derive(Clone, Copy, Debug, PartialEq, Eq, Structural)]
pub struct Unknown;

impl<T> TypeMul<T> for Unknown {
    type Output = Unknown;
}

impl<T> TypeDiv<T> for Unknown {
    type Output = Unknown;
}

/// The unit `N / D`. A pure marker: no value of it is ever made.
pub struct Ratio<N, D> {
    numerator: PhantomData<N>,
    denominator: PhantomData<D>,
}

} // verus!
