//! A 2D extent with `width`/`height` dimensions.

use vstd::prelude::*;

use crate::num::{fits, max2, min2};
use crate::num::{imax, imin, mul_wide};
use crate::vector::Vector;

verus! {

#[derive(Clone, Copy, Debug, PartialEq, Eq, Structural)]
pub struct Size {
    pub width: i64,
    pub height: i64,
}

impl Size {
    pub fn new(width: i64, height: i64) -> (r: Size)
        ensures
            r.width == width,
            r.height == height,
    {
        Size { width, height }
    }

    /// Equal width and height.
    pub fn square(dim: i64) -> (r: Size)
        ensures
            r.width == dim,
            r.height == dim,
    {
        Size::new(dim, dim)
    }

    pub fn zero() -> (r: Size)
        ensures
            r.width == 0,
            r.height == 0,
    {
        Size::square(0)
    }

    pub fn from_array(a: [i64; 2]) -> (r: Size)
        ensures
            r.width == a[0],
            r.height == a[1],
    {
        Size::new(a[0], a[1])
    }

    pub fn from_tuple(t: (i64, i64)) -> (r: Size)
        ensures
            r.width == t.0,
            r.height == t.1,
    {
        Size::new(t.0, t.1)
    }

    pub fn width(self) -> (r: i64)
        ensures
            r == self.width,
    {
        self.width
    }

    pub fn height(self) -> (r: i64)
        ensures
            r == self.height,
    {
        self.height
    }

    pub fn is_landscape(self) -> (r: bool)
        ensures
            r == (self.width > self.height),
    {
        self.width > self.height
    }

    pub fn is_portrait(self) -> (r: bool)
        ensures
            r == (self.width < self.height),
    {
        self.width < self.height
    }

    pub fn is_square(self) -> (r: bool)
        ensures
            r == (self.width == self.height),
    {
        self.width == self.height
    }

    pub fn area(self) -> (r: i64)
        requires
            fits(self.width as int),
            fits(self.height as int),
        ensures
            r == self.width * self.height,
    {
        mul_wide(self.width, self.height)
    }

    /// The smaller of the two dimensions.
    pub fn min_dim(self) -> (r: i64)
        ensures
            r == min2(self.width as int, self.height as int),
    {
        imin(self.width, self.height)
    }

    /// The larger of the two dimensions.
    pub fn max_dim(self) -> (r: i64)
        ensures
            r == max2(self.width as int, self.height as int),
    {
        imax(self.width, self.height)
    }

    pub fn with_width(self, width: i64) -> (r: Size)
        ensures
            r.width == width,
            r.height == self.height,
    {
        Size::new(width, self.height)
    }

    pub fn with_height(self, height: i64) -> (r: Size)
        ensures
            r.width == self.width,
            r.height == height,
    {
        Size::new(self.width, height)
    }

    /// Dimensions scaled by the respective components of `scale`.
    pub fn scale(self, scale: Vector) -> (r: Size)
        requires
            fits(self.width as int),
            fits(self.height as int),
            scale@.fits(),
        ensures
            r.width == self.width * scale.dx,
            r.height == self.height * scale.dy,
    {
        self.scale_width(scale.dx).scale_height(scale.dy)
    }

    pub fn scale_width(self, coeff: i64) -> (r: Size)
        requires
            fits(self.width as int),
            fits(coeff as int),
        ensures
            r.width == self.width * coeff,
            r.height == self.height,
    {
        self.with_width(mul_wide(self.width, coeff))
    }

    pub fn scale_height(self, coeff: i64) -> (r: Size)
        requires
            fits(self.height as int),
            fits(coeff as int),
        ensures
            r.width == self.width,
            r.height == self.height * coeff,
    {
        self.with_height(mul_wide(self.height, coeff))
    }

    /// Both dimensions scaled by the same factor.
    pub fn scale_uniform(self, coeff: i64) -> (r: Size)
        requires
            fits(self.width as int),
            fits(self.height as int),
            fits(coeff as int),
        ensures
            r.width == self.width * coeff,
            r.height == self.height * coeff,
    {
        Size::new(mul_wide(self.width, coeff), mul_wide(self.height, coeff))
    }

    /// The size grown by a vector, component-wise.
    pub fn plus(self, rhs: Vector) -> (r: Size)
        requires
            i64::MIN <= self.width + rhs.dx <= i64::MAX,
            i64::MIN <= self.height + rhs.dy <= i64::MAX,
        ensures
            r.width == self.width + rhs.dx,
            r.height == self.height + rhs.dy,
    {
        Size::new(self.width + rhs.dx, self.height + rhs.dy)
    }

    /// The size shrunk by a vector, component-wise.
    pub fn minus(self, rhs: Vector) -> (r: Size)
        requires
            i64::MIN <= self.width - rhs.dx <= i64::MAX,
            i64::MIN <= self.height - rhs.dy <= i64::MAX,
        ensures
            r.width == self.width - rhs.dx,
            r.height == self.height - rhs.dy,
    {
        Size::new(self.width - rhs.dx, self.height - rhs.dy)
    }

    /// Both dimensions passed through `f`.
    pub fn map<F: Fn(i64) -> i64>(self, f: F) -> (r: Size)
        requires
            call_requires(f, (self.width,)),
            call_requires(f, (self.height,)),
        ensures
            call_ensures(f, (self.width,), r.width),
            call_ensures(f, (self.height,), r.height),
    {
        Size::new(f(self.width), f(self.height))
    }

    pub fn to_array(self) -> (r: [i64; 2])
        ensures
            r[0] == self.width,
            r[1] == self.height,
    {
        [self.width, self.height]
    }

    pub fn to_tuple(self) -> (r: (i64, i64))
        ensures
            r.0 == self.width,
            r.1 == self.height,
    {
        (self.width, self.height)
    }

    pub fn to_vector(self) -> (r: Vector)
        ensures
            r.dx == self.width,
            r.dy == self.height,
    {
        Vector::new(self.width, self.height)
    }

    pub fn from_vector(vector: Vector) -> (r: Size)
        ensures
            r.width == vector.dx,
            r.height == vector.dy,
    {
        Size::new(vector.dx, vector.dy)
    }
}

} // verus!
