//! A row-major 4x4 matrix, sharing its mathematical model with
//! [`Transform3d`](crate::transform3d::Transform3d).

use vstd::prelude::*;

use crate::num::{fits, quot};
use crate::num::mul_wide;
use crate::transform3d::Transform3dView;

verus! {

pub type Mat4x4 = Mat4;

#[derive(Clone, Copy, Debug, PartialEq, Eq, Structural)]
pub struct Mat4 {
    pub m11: i64,
    pub m12: i64,
    pub m13: i64,
    pub m14: i64,
    pub m21: i64,
    pub m22: i64,
    pub m23: i64,
    pub m24: i64,
    pub m31: i64,
    pub m32: i64,
    pub m33: i64,
    pub m34: i64,
    pub m41: i64,
    pub m42: i64,
    pub m43: i64,
    pub m44: i64,
}

impl View for Mat4 {
    type V = Transform3dView;

    open spec fn view(&self) -> Transform3dView {
        Transform3dView {
            m11: self.m11 as int,
            m12: self.m12 as int,
            m13: self.m13 as int,
            m14: self.m14 as int,
            m21: self.m21 as int,
            m22: self.m22 as int,
            m23: self.m23 as int,
            m24: self.m24 as int,
            m31: self.m31 as int,
            m32: self.m32 as int,
            m33: self.m33 as int,
            m34: self.m34 as int,
            m41: self.m41 as int,
            m42: self.m42 as int,
            m43: self.m43 as int,
            m44: self.m44 as int,
        }
    }
}

impl Mat4 {
    pub fn row_major(
        m11: i64,
        m12: i64,
        m13: i64,
        m14: i64,
        m21: i64,
        m22: i64,
        m23: i64,
        m24: i64,
        m31: i64,
        m32: i64,
        m33: i64,
        m34: i64,
        m41: i64,
        m42: i64,
        m43: i64,
        m44: i64,
    ) -> (r: Mat4)
        ensures
            r == (Mat4 {
                m11,
                m12,
                m13,
                m14,
                m21,
                m22,
                m23,
                m24,
                m31,
                m32,
                m33,
                m34,
                m41,
                m42,
                m43,
                m44,
            }),
    {
        Mat4 {
            m11,
            m12,
            m13,
            m14,
            m21,
            m22,
            m23,
            m24,
            m31,
            m32,
            m33,
            m34,
            m41,
            m42,
            m43,
            m44,
        }
    }

    pub fn identity() -> (r: Mat4)
        ensures
            r@ == Transform3dView::identity(),
    {
        Mat4::row_major(1, 0, 0, 0, 0, 1, 0, 0, 0, 0, 1, 0, 0, 0, 0, 1)
    }

    pub fn create_scale(x: i64, y: i64, z: i64) -> (r: Mat4)
        ensures
            r@ == (Transform3dView {
                m11: x as int,
                m22: y as int,
                m33: z as int,
                ..Transform3dView::identity()
            }),
    {
        Mat4::row_major(x, 0, 0, 0, 0, y, 0, 0, 0, 0, z, 0, 0, 0, 0, 1)
    }

    pub fn create_translation(x: i64, y: i64, z: i64) -> (r: Mat4)
        ensures
            r@ == (Transform3dView {
                m41: x as int,
                m42: y as int,
                m43: z as int,
                ..Transform3dView::identity()
            }),
    {
        Mat4::row_major(1, 0, 0, 0, 0, 1, 0, 0, 0, 0, 1, 0, x, y, z, 1)
    }

    /// The matrix product with `mat`: `self` applied first, `mat` second.
    pub fn post_mul(&self, mat: &Mat4) -> (r: Mat4)
        requires
            self@.fits(),
            mat@.fits(),
        ensures
            r@ == self@.post_mul(mat@),
    {
        Mat4::row_major(
            mul_wide(self.m11, mat.m11) + mul_wide(self.m12, mat.m21) + mul_wide(self.m13, mat.m31)
                + mul_wide(self.m14, mat.m41),
            mul_wide(self.m11, mat.m12) + mul_wide(self.m12, mat.m22) + mul_wide(self.m13, mat.m32)
                + mul_wide(self.m14, mat.m42),
            mul_wide(self.m11, mat.m13) + mul_wide(self.m12, mat.m23) + mul_wide(self.m13, mat.m33)
                + mul_wide(self.m14, mat.m43),
            mul_wide(self.m11, mat.m14) + mul_wide(self.m12, mat.m24) + mul_wide(self.m13, mat.m34)
                + mul_wide(self.m14, mat.m44),
            mul_wide(self.m21, mat.m11) + mul_wide(self.m22, mat.m21) + mul_wide(self.m23, mat.m31)
                + mul_wide(self.m24, mat.m41),
            mul_wide(self.m21, mat.m12) + mul_wide(self.m22, mat.m22) + mul_wide(self.m23, mat.m32)
                + mul_wide(self.m24, mat.m42),
            mul_wide(self.m21, mat.m13) + mul_wide(self.m22, mat.m23) + mul_wide(self.m23, mat.m33)
                + mul_wide(self.m24, mat.m43),
            mul_wide(self.m21, mat.m14) + mul_wide(self.m22, mat.m24) + mul_wide(self.m23, mat.m34)
                + mul_wide(self.m24, mat.m44),
            mul_wide(self.m31, mat.m11) + mul_wide(self.m32, mat.m21) + mul_wide(self.m33, mat.m31)
                + mul_wide(self.m34, mat.m41),
            mul_wide(self.m31, mat.m12) + mul_wide(self.m32, mat.m22) + mul_wide(self.m33, mat.m32)
                + mul_wide(self.m34, mat.m42),
            mul_wide(self.m31, mat.m13) + mul_wide(self.m32, mat.m23) + mul_wide(self.m33, mat.m33)
                + mul_wide(self.m34, mat.m43),
            mul_wide(self.m31, mat.m14) + mul_wide(self.m32, mat.m24) + mul_wide(self.m33, mat.m34)
                + mul_wide(self.m34, mat.m44),
            mul_wide(self.m41, mat.m11) + mul_wide(self.m42, mat.m21) + mul_wide(self.m43, mat.m31)
                + mul_wide(self.m44, mat.m41),
            mul_wide(self.m41, mat.m12) + mul_wide(self.m42, mat.m22) + mul_wide(self.m43, mat.m32)
                + mul_wide(self.m44, mat.m42),
            mul_wide(self.m41, mat.m13) + mul_wide(self.m42, mat.m23) + mul_wide(self.m43, mat.m33)
                + mul_wide(self.m44, mat.m43),
            mul_wide(self.m41, mat.m14) + mul_wide(self.m42, mat.m24) + mul_wide(self.m43, mat.m34)
                + mul_wide(self.m44, mat.m44),
        )
    }

    /// The matrix product with `mat` on the left: "apply `mat`, then `self`".
    pub fn pre_mul(&self, mat: &Mat4) -> (r: Mat4)
        requires
            self@.fits(),
            mat@.fits(),
        ensures
            r@ == mat@.post_mul(self@),
    {
        mat.post_mul(self)
    }

    pub fn post_scale(&self, x: i64, y: i64, z: i64) -> (r: Mat4)
        requires
            self@.fits(),
            fits(x as int),
            fits(y as int),
            fits(z as int),
        ensures
            r@ == self@.post_mul(
                Transform3dView {
                    m11: x as int,
                    m22: y as int,
                    m33: z as int,
                    ..Transform3dView::identity()
                },
            ),
    {
        self.post_mul(&Mat4::create_scale(x, y, z))
    }

    pub fn pre_scale(&self, x: i64, y: i64, z: i64) -> (r: Mat4)
        requires
            self@.fits(),
            fits(x as int),
            fits(y as int),
            fits(z as int),
        ensures
            r@ == (Transform3dView {
                m11: x as int,
                m22: y as int,
                m33: z as int,
                ..Transform3dView::identity()
            }).post_mul(self@),
    {
        self.pre_mul(&Mat4::create_scale(x, y, z))
    }

    pub fn post_translate(self, x: i64, y: i64, z: i64) -> (r: Mat4)
        requires
            self@.fits(),
            fits(x as int),
            fits(y as int),
            fits(z as int),
        ensures
            r@ == self@.post_mul(
                Transform3dView {
                    m41: x as int,
                    m42: y as int,
                    m43: z as int,
                    ..Transform3dView::identity()
                },
            ),
    {
        self.post_mul(&Mat4::create_translation(x, y, z))
    }

    pub fn pre_translate(self, x: i64, y: i64, z: i64) -> (r: Mat4)
        requires
            self@.fits(),
            fits(x as int),
            fits(y as int),
            fits(z as int),
        ensures
            r@ == (Transform3dView {
                m41: x as int,
                m42: y as int,
                m43: z as int,
                ..Transform3dView::identity()
            }).post_mul(self@),
    {
        self.pre_mul(&Mat4::create_translation(x, y, z))
    }

    /// The orthographic projection mapping the given box to the unit cube,
    /// with truncating division (the standard convention: Y grows from
    /// `bottom` to `top` in clip space, Z is negated).
    pub fn ortho(left: i64, right: i64, bottom: i64, top: i64, near: i64, far: i64) -> (r: Mat4)
        requires
            fits(left as int),
            fits(right as int),
            fits(bottom as int),
            fits(top as int),
            fits(near as int),
            fits(far as int),
            right != left,
            top != bottom,
            far != near,
        ensures
            r@ == (Transform3dView {
                m11: quot(2, right - left),
                m22: quot(2, top - bottom),
                m33: quot(-2, far - near),
                m41: -quot(right + left, right - left),
                m42: -quot(top + bottom, top - bottom),
                m43: -quot(far + near, far - near),
                ..Transform3dView::identity()
            }),
    {
        proof {
            crate::num::lemma_quot_abs(right + left, right - left);
            crate::num::lemma_quot_abs(top + bottom, top - bottom);
            crate::num::lemma_quot_abs(far + near, far - near);
            crate::num::lemma_quot_abs(2, right - left);
            crate::num::lemma_quot_abs(2, top - bottom);
            crate::num::lemma_quot_abs(-2, far - near);
        }
        let tx = -((right + left) / (right - left));
        let ty = -((top + bottom) / (top - bottom));
        let tz = -((far + near) / (far - near));
        let sx = 2 / (right - left);
        let sy = 2 / (top - bottom);
        let sz = -2 / (far - near);
        Mat4::row_major(sx, 0, 0, 0, 0, sy, 0, 0, 0, 0, sz, 0, tx, ty, tz, 1)
    }
}

impl Default for Mat4 {
    /// The identity matrix.
    fn default() -> (r: Mat4)
        ensures
            r@ == Transform3dView::identity(),
    {
        Mat4::identity()
    }
}

} // verus!
