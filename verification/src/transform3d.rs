//! The 3D homogeneous transform: a row-major 4x4 matrix. 2D vectors are
//! lifted to `(dx, dy, 0, 1)`, transformed, and truncated back — no
//! perspective divide is performed, so the 2D consumption path is
//! affine-only.

use vstd::prelude::*;

use crate::num::fits;
use crate::num::mul_wide;
use crate::point::Point;
use crate::quad::Quad;
use crate::rect::Rect;
use crate::transform::{Transform, TransformView};
use crate::vector::{Vector, VectorView};

verus! {

/// The mathematical value of a [`Transform3d`]: its sixteen entries as
/// unbounded integers.
#[verifier::ext_equal]
pub struct Transform3dView {
    pub m11: int,
    pub m12: int,
    pub m13: int,
    pub m14: int,
    pub m21: int,
    pub m22: int,
    pub m23: int,
    pub m24: int,
    pub m31: int,
    pub m32: int,
    pub m33: int,
    pub m34: int,
    pub m41: int,
    pub m42: int,
    pub m43: int,
    pub m44: int,
}

impl Transform3dView {
    pub open spec fn identity() -> Transform3dView {
        Transform3dView {
            m11: 1,
            m12: 0,
            m13: 0,
            m14: 0,
            m21: 0,
            m22: 1,
            m23: 0,
            m24: 0,
            m31: 0,
            m32: 0,
            m33: 1,
            m34: 0,
            m41: 0,
            m42: 0,
            m43: 0,
            m44: 1,
        }
    }

    /// The 4x4 product `self * other`: `self` applied first, `other` second.
    pub open spec fn post_mul(self, o: Transform3dView) -> Transform3dView {
        Transform3dView {
            m11: self.m11 * o.m11 + self.m12 * o.m21 + self.m13 * o.m31 + self.m14 * o.m41,
            m12: self.m11 * o.m12 + self.m12 * o.m22 + self.m13 * o.m32 + self.m14 * o.m42,
            m13: self.m11 * o.m13 + self.m12 * o.m23 + self.m13 * o.m33 + self.m14 * o.m43,
            m14: self.m11 * o.m14 + self.m12 * o.m24 + self.m13 * o.m34 + self.m14 * o.m44,
            m21: self.m21 * o.m11 + self.m22 * o.m21 + self.m23 * o.m31 + self.m24 * o.m41,
            m22: self.m21 * o.m12 + self.m22 * o.m22 + self.m23 * o.m32 + self.m24 * o.m42,
            m23: self.m21 * o.m13 + self.m22 * o.m23 + self.m23 * o.m33 + self.m24 * o.m43,
            m24: self.m21 * o.m14 + self.m22 * o.m24 + self.m23 * o.m34 + self.m24 * o.m44,
            m31: self.m31 * o.m11 + self.m32 * o.m21 + self.m33 * o.m31 + self.m34 * o.m41,
            m32: self.m31 * o.m12 + self.m32 * o.m22 + self.m33 * o.m32 + self.m34 * o.m42,
            m33: self.m31 * o.m13 + self.m32 * o.m23 + self.m33 * o.m33 + self.m34 * o.m43,
            m34: self.m31 * o.m14 + self.m32 * o.m24 + self.m33 * o.m34 + self.m34 * o.m44,
            m41: self.m41 * o.m11 + self.m42 * o.m21 + self.m43 * o.m31 + self.m44 * o.m41,
            m42: self.m41 * o.m12 + self.m42 * o.m22 + self.m43 * o.m32 + self.m44 * o.m42,
            m43: self.m41 * o.m13 + self.m42 * o.m23 + self.m43 * o.m33 + self.m44 * o.m43,
            m44: self.m41 * o.m14 + self.m42 * o.m24 + self.m43 * o.m34 + self.m44 * o.m44,
        }
    }

    /// A 2D vector lifted to `(dx, dy, 0, 1)`, transformed, and truncated
    /// back to 2D by discarding the `z` and `w` components.
    pub open spec fn transform_vector(self, v: VectorView) -> VectorView {
        VectorView {
            dx: self.m11 * v.dx + self.m21 * v.dy + self.m41,
            dy: self.m12 * v.dx + self.m22 * v.dy + self.m42,
        }
    }

    /// The 2D affine transform embedded in homogeneous form: linear part in
    /// the upper-left 2x2 block, translation in the fourth row.
    pub open spec fn from_2d(t: TransformView) -> Transform3dView {
        Transform3dView {
            m11: t.m11,
            m12: t.m12,
            m13: 0,
            m14: 0,
            m21: t.m21,
            m22: t.m22,
            m23: 0,
            m24: 0,
            m31: 0,
            m32: 0,
            m33: 1,
            m34: 0,
            m41: t.m31,
            m42: t.m32,
            m43: 0,
            m44: 1,
        }
    }

    /// All sixteen entries within the coordinate range.
    pub open spec fn fits(self) -> bool {
        fits(self.m11) && fits(self.m12) && fits(self.m13) && fits(self.m14) && fits(self.m21)
            && fits(self.m22) && fits(self.m23) && fits(self.m24) && fits(self.m31) && fits(
            self.m32,
        ) && fits(self.m33) && fits(self.m34) && fits(self.m41) && fits(self.m42) && fits(self.m43)
            && fits(self.m44)
    }
}

#[derive(Clone, Copy, Debug, PartialEq, Eq, Structural)]
pub struct Transform3d {
    pub m11: i64,
    pub m12: i64,
    pub m13: i64,
    pub m14: i64,
    pub m21: i64,
    pub m22: i64,
    pub m23: i64,
    pub m24: i64,
    pub m31: i64,
    pub m32: i64,
    pub m33: i64,
    pub m34: i64,
    pub m41: i64,
    pub m42: i64,
    pub m43: i64,
    pub m44: i64,
}

impl View for Transform3d {
    type V = Transform3dView;

    open spec fn view(&self) -> Transform3dView {
        Transform3dView {
            m11: self.m11 as int,
            m12: self.m12 as int,
            m13: self.m13 as int,
            m14: self.m14 as int,
            m21: self.m21 as int,
            m22: self.m22 as int,
            m23: self.m23 as int,
            m24: self.m24 as int,
            m31: self.m31 as int,
            m32: self.m32 as int,
            m33: self.m33 as int,
            m34: self.m34 as int,
            m41: self.m41 as int,
            m42: self.m42 as int,
            m43: self.m43 as int,
            m44: self.m44 as int,
        }
    }
}

impl Transform3d {
    pub fn row_major(
        m11: i64,
        m12: i64,
        m13: i64,
        m14: i64,
        m21: i64,
        m22: i64,
        m23: i64,
        m24: i64,
        m31: i64,
        m32: i64,
        m33: i64,
        m34: i64,
        m41: i64,
        m42: i64,
        m43: i64,
        m44: i64,
    ) -> (r: Transform3d)
        ensures
            r == (Transform3d {
                m11,
                m12,
                m13,
                m14,
                m21,
                m22,
                m23,
                m24,
                m31,
                m32,
                m33,
                m34,
                m41,
                m42,
                m43,
                m44,
            }),
    {
        Transform3d {
            m11,
            m12,
            m13,
            m14,
            m21,
            m22,
            m23,
            m24,
            m31,
            m32,
            m33,
            m34,
            m41,
            m42,
            m43,
            m44,
        }
    }

    /// Creates a multiplicative identity matrix.
    pub fn identity() -> (r: Transform3d)
        ensures
            r@ == Transform3dView::identity(),
    {
        Transform3d::row_major(1, 0, 0, 0, 0, 1, 0, 0, 0, 0, 1, 0, 0, 0, 0, 1)
    }

    /// The identity with the given factors on the diagonal.
    pub fn from_scale(x: i64, y: i64, z: i64) -> (r: Transform3d)
        ensures
            r@ == (Transform3dView {
                m11: x as int,
                m22: y as int,
                m33: z as int,
                ..Transform3dView::identity()
            }),
    {
        Transform3d::row_major(x, 0, 0, 0, 0, y, 0, 0, 0, 0, z, 0, 0, 0, 0, 1)
    }

    /// The identity with the given offsets in the translation row.
    pub fn from_translation(x: i64, y: i64, z: i64) -> (r: Transform3d)
        ensures
            r@ == (Transform3dView {
                m41: x as int,
                m42: y as int,
                m43: z as int,
                ..Transform3dView::identity()
            }),
    {
        Transform3d::row_major(1, 0, 0, 0, 0, 1, 0, 0, 0, 0, 1, 0, x, y, z, 1)
    }

    /// Creates a new matrix by multiplying another matrix after this matrix.
    pub fn post_mul(self, mat: Transform3d) -> (r: Transform3d)
        requires
            self@.fits(),
            mat@.fits(),
        ensures
            r@ == self@.post_mul(mat@),
    {
        Transform3d::row_major(
            mul_wide(self.m11, mat.m11) + mul_wide(self.m12, mat.m21) + mul_wide(self.m13, mat.m31)
                + mul_wide(self.m14, mat.m41),
            mul_wide(self.m11, mat.m12) + mul_wide(self.m12, mat.m22) + mul_wide(self.m13, mat.m32)
                + mul_wide(self.m14, mat.m42),
            mul_wide(self.m11, mat.m13) + mul_wide(self.m12, mat.m23) + mul_wide(self.m13, mat.m33)
                + mul_wide(self.m14, mat.m43),
            mul_wide(self.m11, mat.m14) + mul_wide(self.m12, mat.m24) + mul_wide(self.m13, mat.m34)
                + mul_wide(self.m14, mat.m44),
            mul_wide(self.m21, mat.m11) + mul_wide(self.m22, mat.m21) + mul_wide(self.m23, mat.m31)
                + mul_wide(self.m24, mat.m41),
            mul_wide(self.m21, mat.m12) + mul_wide(self.m22, mat.m22) + mul_wide(self.m23, mat.m32)
                + mul_wide(self.m24, mat.m42),
            mul_wide(self.m21, mat.m13) + mul_wide(self.m22, mat.m23) + mul_wide(self.m23, mat.m33)
                + mul_wide(self.m24, mat.m43),
            mul_wide(self.m21, mat.m14) + mul_wide(self.m22, mat.m24) + mul_wide(self.m23, mat.m34)
                + mul_wide(self.m24, mat.m44),
            mul_wide(self.m31, mat.m11) + mul_wide(self.m32, mat.m21) + mul_wide(self.m33, mat.m31)
                + mul_wide(self.m34, mat.m41),
            mul_wide(self.m31, mat.m12) + mul_wide(self.m32, mat.m22) + mul_wide(self.m33, mat.m32)
                + mul_wide(self.m34, mat.m42),
            mul_wide(self.m31, mat.m13) + mul_wide(self.m32, mat.m23) + mul_wide(self.m33, mat.m33)
                + mul_wide(self.m34, mat.m43),
            mul_wide(self.m31, mat.m14) + mul_wide(self.m32, mat.m24) + mul_wide(self.m33, mat.m34)
                + mul_wide(self.m34, mat.m44),
            mul_wide(self.m41, mat.m11) + mul_wide(self.m42, mat.m21) + mul_wide(self.m43, mat.m31)
                + mul_wide(self.m44, mat.m41),
            mul_wide(self.m41, mat.m12) + mul_wide(self.m42, mat.m22) + mul_wide(self.m43, mat.m32)
                + mul_wide(self.m44, mat.m42),
            mul_wide(self.m41, mat.m13) + mul_wide(self.m42, mat.m23) + mul_wide(self.m43, mat.m33)
                + mul_wide(self.m44, mat.m43),
            mul_wide(self.m41, mat.m14) + mul_wide(self.m42, mat.m24) + mul_wide(self.m43, mat.m34)
                + mul_wide(self.m44, mat.m44),
        )
    }

    /// The matrix product with `mat` on the left: "apply `mat`, then `self`".
    pub fn pre_mul(&self, mat: Transform3d) -> (r: Transform3d)
        requires
            self@.fits(),
            mat@.fits(),
        ensures
            r@ == mat@.post_mul(self@),
    {
        mat.post_mul(*self)
    }

    /// Lifts the 2D vector to `(dx, dy, 0, 1)`, applies the matrix, and
    /// truncates back to 2D (no perspective divide).
    pub fn transform_vector(&self, v: Vector) -> (r: Vector)
        requires
            self@.fits(),
            v@.fits(),
        ensures
            r@ == self@.transform_vector(v@),
    {
        Vector::new(
            mul_wide(self.m11, v.dx) + mul_wide(self.m21, v.dy) + self.m41,
            mul_wide(self.m12, v.dx) + mul_wide(self.m22, v.dy) + self.m42,
        )
    }

    /// The point's vector representation, lifted, transformed and truncated.
    pub fn transform_point(&self, p: Point) -> (r: Point)
        requires
            self@.fits(),
            p@.fits(),
        ensures
            r@.to_vector() == self@.transform_vector(p@.to_vector()),
    {
        self.transform_vector(p.to_vector()).to_point()
    }

    /// Transforms the four corners independently and returns them exactly as
    /// a [`Quad`] — unlike the 2D path, no bounding box is taken, so nothing
    /// is lost.
    pub fn transform_rect(&self, rect: Rect) -> (r: Quad)
        requires
            self@.fits(),
            rect@.fits(),
        ensures
            r.a@.to_vector() == self@.transform_vector(
                VectorView { dx: rect@.left, dy: rect@.top },
            ),
            r.b@.to_vector() == self@.transform_vector(
                VectorView { dx: rect@.right, dy: rect@.top },
            ),
            r.c@.to_vector() == self@.transform_vector(
                VectorView { dx: rect@.right, dy: rect@.bottom },
            ),
            r.d@.to_vector() == self@.transform_vector(
                VectorView { dx: rect@.left, dy: rect@.bottom },
            ),
    {
        Quad::new(
            self.transform_point(rect.top_left()),
            self.transform_point(rect.top_right()),
            self.transform_point(rect.bottom_right()),
            self.transform_point(rect.bottom_left()),
        )
    }
}

impl Default for Transform3d {
    /// The identity transform.
    fn default() -> (r: Transform3d)
        ensures
            r@ == Transform3dView::identity(),
    {
        Transform3d::identity()
    }
}

impl From<Transform> for Transform3d {
    /// Embeds the 2D affine transform in homogeneous form.
    fn from(t: Transform) -> (r: Transform3d) {
        Transform3d::row_major(
            t.m11,
            t.m12,
            0,
            0,
            t.m21,
            t.m22,
            0,
            0,
            0,
            0,
            1,
            0,
            t.m31,
            t.m32,
            0,
            1,
        )
    }
}

impl vstd::std_specs::convert::FromSpecImpl<Transform> for Transform3d {
    open spec fn obeys_from_spec() -> bool {
        true
    }

    open spec fn from_spec(t: Transform) -> Transform3d {
        Transform3d {
            m11: t.m11,
            m12: t.m12,
            m13: 0,
            m14: 0,
            m21: t.m21,
            m22: t.m22,
            m23: 0,
            m24: 0,
            m31: 0,
            m32: 0,
            m33: 1,
            m34: 0,
            m41: t.m31,
            m42: t.m32,
            m43: 0,
            m44: 1,
        }
    }
}

/// Composing with the identity on either side leaves a 3D transform
/// unchanged.
pub proof fn lemma_identity_composition_3d(t: Transform3dView)
    ensures
        t.post_mul(Transform3dView::identity()) == t,
        Transform3dView::identity().post_mul(t) == t,
{
    assert(t.post_mul(Transform3dView::identity()) =~= t);
    assert(Transform3dView::identity().post_mul(t) =~= t);
}

/// Lifting a 2D affine transform to homogeneous form and transforming a
/// lifted-then-truncated vector agrees exactly with applying the 2D
/// transform directly: the truncation path preserves the 2D affine
/// behaviour.
pub proof fn lemma_truncation_preserves_2d(t: TransformView, v: VectorView)
    ensures
        Transform3dView::from_2d(t).transform_vector(v) == t.apply(v),
{
    assert(t.m11 * v.dx == v.dx * t.m11) by (nonlinear_arith);
    assert(t.m21 * v.dy == v.dy * t.m21) by (nonlinear_arith);
    assert(t.m12 * v.dx == v.dx * t.m12) by (nonlinear_arith);
    assert(t.m22 * v.dy == v.dy * t.m22) by (nonlinear_arith);
    assert(Transform3dView::from_2d(t).transform_vector(v) =~= t.apply(v));
}

} // verus!
