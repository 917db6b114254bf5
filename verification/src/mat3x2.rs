//! A row-major 3x2 affine matrix, sharing its mathematical model with
//! [`Transform`](crate::transform::Transform).

use vstd::prelude::*;

use crate::mat4::Mat4;
use crate::num::{fits, quot};
use crate::num::mul_wide;
use crate::point::Point;
use crate::rect::Rect;
use crate::transform::TransformView;
use crate::transform3d::Transform3dView;
use crate::vector::Vector;

verus! {

#[derive(Clone, Copy, Debug, PartialEq, Eq, Structural)]
pub struct Mat3x2 {
    pub m11: i64,
    pub m12: i64,
    pub m21: i64,
    pub m22: i64,
    pub m31: i64,
    pub m32: i64,
}

impl View for Mat3x2 {
    type V = TransformView;

    open spec fn view(&self) -> TransformView {
        TransformView {
            m11: self.m11 as int,
            m12: self.m12 as int,
            m21: self.m21 as int,
            m22: self.m22 as int,
            m31: self.m31 as int,
            m32: self.m32 as int,
        }
    }
}

impl Mat3x2 {
    pub fn row_major(m11: i64, m12: i64, m21: i64, m22: i64, m31: i64, m32: i64) -> (r: Mat3x2)
        ensures
            r == (Mat3x2 { m11, m12, m21, m22, m31, m32 }),
    {
        Mat3x2 { m11, m12, m21, m22, m31, m32 }
    }

    pub fn identity() -> (r: Mat3x2)
        ensures
            r@ == TransformView::identity(),
    {
        Mat3x2::row_major(1, 0, 0, 1, 0, 0)
    }

    pub fn create_scale(x: i64, y: i64) -> (r: Mat3x2)
        ensures
            r@ == (TransformView { m11: x as int, m12: 0, m21: 0, m22: y as int, m31: 0, m32: 0 }),
    {
        Mat3x2::row_major(x, 0, 0, y, 0, 0)
    }

    pub fn create_translation(x: i64, y: i64) -> (r: Mat3x2)
        ensures
            r@ == (TransformView { m11: 1, m12: 0, m21: 0, m22: 1, m31: x as int, m32: y as int }),
    {
        Mat3x2::row_major(1, 0, 0, 1, x, y)
    }

    /// The 2D orthographic projection mapping the given edges to the unit
    /// square, with truncating division (Y grows from `bottom` to `top` in
    /// clip space).
    pub fn ortho(left: i64, right: i64, bottom: i64, top: i64) -> (r: Mat3x2)
        requires
            fits(left as int),
            fits(right as int),
            fits(bottom as int),
            fits(top as int),
            right != left,
            top != bottom,
        ensures
            r@ == (TransformView {
                m11: quot(2, right - left),
                m12: 0,
                m21: 0,
                m22: quot(2, top - bottom),
                m31: -quot(right + left, right - left),
                m32: -quot(top + bottom, top - bottom),
            }),
    {
        proof {
            crate::num::lemma_quot_abs(right + left, right - left);
            crate::num::lemma_quot_abs(top + bottom, top - bottom);
            crate::num::lemma_quot_abs(2, right - left);
            crate::num::lemma_quot_abs(2, top - bottom);
        }
        let tx = -((right + left) / (right - left));
        let ty = -((top + bottom) / (top - bottom));
        let sx = 2 / (right - left);
        let sy = 2 / (top - bottom);
        Mat3x2::row_major(sx, 0, 0, sy, tx, ty)
    }

    /// This matrix as a 4x4 homogeneous matrix.
    pub fn to_mat4(self) -> (r: Mat4)
        ensures
            r@ == Transform3dView::from_2d(self@),
    {
        Mat4::row_major(
            self.m11,
            self.m12,
            0,
            0,
            self.m21,
            self.m22,
            0,
            0,
            0,
            0,
            1,
            0,
            self.m31,
            self.m32,
            0,
            1,
        )
    }

    /// The matrix applied to a position, translation row included.
    pub fn transform_point(&self, point: &Point) -> (r: Point)
        requires
            self@.fits(),
            point@.fits(),
        ensures
            r@.to_vector() == self@.apply(point@.to_vector()),
    {
        Point::new(
            mul_wide(point.x, self.m11) + mul_wide(point.y, self.m21) + self.m31,
            mul_wide(point.x, self.m12) + mul_wide(point.y, self.m22) + self.m32,
        )
    }

    /// The matrix applied to a free vector: the translation row does not
    /// apply.
    pub fn transform_vector(&self, vector: &Vector) -> (r: Vector)
        requires
            self@.fits(),
            vector@.fits(),
        ensures
            r.dx == vector.dx * self.m11 + vector.dy * self.m21,
            r.dy == vector.dx * self.m12 + vector.dy * self.m22,
    {
        Vector::new(
            mul_wide(vector.dx, self.m11) + mul_wide(vector.dy, self.m21),
            mul_wide(vector.dx, self.m12) + mul_wide(vector.dy, self.m22),
        )
    }

    /// Transforms the four corners and takes the axis-aligned bounding box
    /// of the result.
    pub fn transform_rect(&self, rect: &Rect) -> (r: Rect)
        requires
            self@.fits(),
            rect@.fits(),
        ensures
            r@ == rect@.transform_bounds(self@),
    {
        let a = self.transform_point(&rect.top_left());
        let b = self.transform_point(&rect.top_right());
        let c = self.transform_point(&rect.bottom_right());
        let d = self.transform_point(&rect.bottom_left());
        Rect::from_top_right_bottom_left(
            crate::num::imin(crate::num::imin(a.y, b.y), crate::num::imin(c.y, d.y)),
            crate::num::imax(crate::num::imax(a.x, b.x), crate::num::imax(c.x, d.x)),
            crate::num::imax(crate::num::imax(a.y, b.y), crate::num::imax(c.y, d.y)),
            crate::num::imin(crate::num::imin(a.x, b.x), crate::num::imin(c.x, d.x)),
        )
    }

    /// The matrix product with `mat`: `self` applied first, `mat` second.
    pub fn post_mul(&self, mat: &Mat3x2) -> (r: Mat3x2)
        requires
            self@.fits(),
            mat@.fits(),
        ensures
            r@ == self@.post_mul(mat@),
    {
        Mat3x2::row_major(
            mul_wide(self.m11, mat.m11) + mul_wide(self.m12, mat.m21),
            mul_wide(self.m11, mat.m12) + mul_wide(self.m12, mat.m22),
            mul_wide(self.m21, mat.m11) + mul_wide(self.m22, mat.m21),
            mul_wide(self.m21, mat.m12) + mul_wide(self.m22, mat.m22),
            mul_wide(self.m31, mat.m11) + mul_wide(self.m32, mat.m21) + mat.m31,
            mul_wide(self.m31, mat.m12) + mul_wide(self.m32, mat.m22) + mat.m32,
        )
    }

    pub fn post_translate(&self, vec: Vector) -> (r: Mat3x2)
        requires
            self@.fits(),
            vec@.fits(),
        ensures
            r@ == self@.post_mul(
                TransformView {
                    m11: 1,
                    m12: 0,
                    m21: 0,
                    m22: 1,
                    m31: vec.dx as int,
                    m32: vec.dy as int,
                },
            ),
    {
        self.post_mul(&Mat3x2::create_translation(vec.dx, vec.dy))
    }

    pub fn post_scale(&self, x: i64, y: i64) -> (r: Mat3x2)
        requires
            self@.fits(),
            fits(x as int),
            fits(y as int),
        ensures
            r@ == self@.post_mul(
                TransformView { m11: x as int, m12: 0, m21: 0, m22: y as int, m31: 0, m32: 0 },
            ),
    {
        self.post_mul(&Mat3x2::create_scale(x, y))
    }
}

impl Default for Mat3x2 {
    /// The identity matrix.
    fn default() -> (r: Mat3x2)
        ensures
            r@ == TransformView::identity(),
    {
        Mat3x2::identity()
    }
}

} // verus!
