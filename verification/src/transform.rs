//! The 2D affine transform: a row-major 3x2 matrix with an implicit third
//! column `[0, 0, 1]`, applied on the right of a row vector (`self` first,
//! `other` second under `post_mul`).

use vstd::prelude::*;

use crate::num::{fits, mul_wide};
use crate::vector::{Vector, VectorView};

verus! {

/// The mathematical value of a [`Transform`]: its six entries as unbounded
/// integers.
#[verifier::ext_equal]
pub struct TransformView {
    pub m11: int,
    pub m12: int,
    pub m21: int,
    pub m22: int,
    pub m31: int,
    pub m32: int,
}

impl TransformView {
    pub open spec fn identity() -> TransformView {
        TransformView { m11: 1, m12: 0, m21: 0, m22: 1, m31: 0, m32: 0 }
    }

    /// The 3x2 product `self * other`: `self` applied first, `other` second.
    pub open spec fn post_mul(self, o: TransformView) -> TransformView {
        TransformView {
            m11: self.m11 * o.m11 + self.m12 * o.m21,
            m12: self.m11 * o.m12 + self.m12 * o.m22,
            m21: self.m21 * o.m11 + self.m22 * o.m21,
            m22: self.m21 * o.m12 + self.m22 * o.m22,
            m31: self.m31 * o.m11 + self.m32 * o.m21 + o.m31,
            m32: self.m31 * o.m12 + self.m32 * o.m22 + o.m32,
        }
    }

    pub open spec fn determinant(self) -> int {
        self.m11 * self.m22 - self.m12 * self.m21
    }

    /// The adjugate: the numerators of the inverse's entries, before the
    /// division by the determinant that the inverse formula performs
    /// (`inv.m11 = m22/det` and so on).
    pub open spec fn adjugate(self) -> TransformView {
        TransformView {
            m11: self.m22,
            m12: 0 - self.m12,
            m21: 0 - self.m21,
            m22: self.m11,
            m31: self.m21 * self.m32 - self.m22 * self.m31,
            m32: self.m31 * self.m12 - self.m11 * self.m32,
        }
    }

    /// The pure scale by `k` about the origin; `scaled_identity(d)` is what
    /// composing a transform of determinant `d` with its adjugate yields.
    pub open spec fn scaled_identity(k: int) -> TransformView {
        TransformView { m11: k, m12: 0, m21: 0, m22: k, m31: 0, m32: 0 }
    }

    /// The transform applied to a displacement, translation row included.
    pub open spec fn apply(self, v: VectorView) -> VectorView {
        VectorView {
            dx: v.dx * self.m11 + v.dy * self.m21 + self.m31,
            dy: v.dx * self.m12 + v.dy * self.m22 + self.m32,
        }
    }

    /// All six entries within the coordinate range.
    pub open spec fn fits(self) -> bool {
        fits(self.m11) && fits(self.m12) && fits(self.m21) && fits(self.m22) && fits(self.m31)
            && fits(self.m32)
    }
}

#[derive(Clone, Copy, Debug, PartialEq, Eq, Structural)]
pub struct Transform {
    pub m11: i64,
    pub m12: i64,
    pub m21: i64,
    pub m22: i64,
    pub m31: i64,
    pub m32: i64,
}

impl View for Transform {
    type V = TransformView;

    open spec fn view(&self) -> TransformView {
        TransformView {
            m11: self.m11 as int,
            m12: self.m12 as int,
            m21: self.m21 as int,
            m22: self.m22 as int,
            m31: self.m31 as int,
            m32: self.m32 as int,
        }
    }
}

impl Transform {
    pub fn row_major(m11: i64, m12: i64, m21: i64, m22: i64, m31: i64, m32: i64) -> (r: Transform)
        ensures
            r@ == (TransformView {
                m11: m11 as int,
                m12: m12 as int,
                m21: m21 as int,
                m22: m22 as int,
                m31: m31 as int,
                m32: m32 as int,
            }),
    {
        Transform { m11, m12, m21, m22, m31, m32 }
    }

    /// Creates a multiplicative identity matrix.
    pub fn identity() -> (r: Transform)
        ensures
            r@ == TransformView::identity(),
    {
        Transform::row_major(1, 0, 0, 1, 0, 0)
    }

    pub fn from_scale(x: i64, y: i64) -> (r: Transform)
        ensures
            r@ == (TransformView { m11: x as int, m12: 0, m21: 0, m22: y as int, m31: 0, m32: 0 }),
    {
        Transform::row_major(x, 0, 0, y, 0, 0)
    }

    pub fn from_scale_vector(scale: Vector) -> (r: Transform)
        ensures
            r@ == (TransformView {
                m11: scale.dx as int,
                m12: 0,
                m21: 0,
                m22: scale.dy as int,
                m31: 0,
                m32: 0,
            }),
    {
        Transform::from_scale(scale.dx, scale.dy)
    }

    pub fn from_translation(x: i64, y: i64) -> (r: Transform)
        ensures
            r@ == (TransformView { m11: 1, m12: 0, m21: 0, m22: 1, m31: x as int, m32: y as int }),
    {
        Transform::row_major(1, 0, 0, 1, x, y)
    }

    pub fn from_translation_vector(translation: Vector) -> (r: Transform)
        ensures
            r@ == (TransformView {
                m11: 1,
                m12: 0,
                m21: 0,
                m22: 1,
                m31: translation.dx as int,
                m32: translation.dy as int,
            }),
    {
        Transform::from_translation(translation.dx, translation.dy)
    }

    pub fn determinant(&self) -> (r: i64)
        requires
            self@.fits(),
        ensures
            r == self@.determinant(),
    {
        mul_wide(self.m11, self.m22) - mul_wide(self.m12, self.m21)
    }

    /// The matrix product with `mat`: the result represents "apply `self`,
    /// then apply `mat`".
    pub fn post_mul(&self, mat: Transform) -> (r: Transform)
        requires
            self@.fits(),
            mat@.fits(),
        ensures
            r@ == self@.post_mul(mat@),
    {
        Transform::row_major(
            mul_wide(self.m11, mat.m11) + mul_wide(self.m12, mat.m21),
            mul_wide(self.m11, mat.m12) + mul_wide(self.m12, mat.m22),
            mul_wide(self.m21, mat.m11) + mul_wide(self.m22, mat.m21),
            mul_wide(self.m21, mat.m12) + mul_wide(self.m22, mat.m22),
            mul_wide(self.m31, mat.m11) + mul_wide(self.m32, mat.m21) + mat.m31,
            mul_wide(self.m31, mat.m12) + mul_wide(self.m32, mat.m22) + mat.m32,
        )
    }

    /// The matrix product with `mat` on the left: "apply `mat`, then `self`".
    pub fn pre_mul(&self, mat: Transform) -> (r: Transform)
        requires
            self@.fits(),
            mat@.fits(),
        ensures
            r@ == mat@.post_mul(self@),
    {
        mat.post_mul(*self)
    }

    pub fn post_translate(&self, x: i64, y: i64) -> (r: Transform)
        requires
            self@.fits(),
            fits(x as int),
            fits(y as int),
        ensures
            r@ == self@.post_mul(
                TransformView { m11: 1, m12: 0, m21: 0, m22: 1, m31: x as int, m32: y as int },
            ),
    {
        self.post_mul(Transform::from_translation(x, y))
    }

    pub fn post_translate_vector(&self, translation: Vector) -> (r: Transform)
        requires
            self@.fits(),
            translation@.fits(),
        ensures
            r@ == self@.post_mul(
                TransformView {
                    m11: 1,
                    m12: 0,
                    m21: 0,
                    m22: 1,
                    m31: translation.dx as int,
                    m32: translation.dy as int,
                },
            ),
    {
        self.post_mul(Transform::from_translation_vector(translation))
    }

    pub fn pre_translate(&self, x: i64, y: i64) -> (r: Transform)
        requires
            self@.fits(),
            fits(x as int),
            fits(y as int),
        ensures
            r@ == (TransformView {
                m11: 1,
                m12: 0,
                m21: 0,
                m22: 1,
                m31: x as int,
                m32: y as int,
            }).post_mul(self@),
    {
        self.pre_mul(Transform::from_translation(x, y))
    }

    pub fn pre_translate_vector(&self, translation: Vector) -> (r: Transform)
        requires
            self@.fits(),
            translation@.fits(),
        ensures
            r@ == (TransformView {
                m11: 1,
                m12: 0,
                m21: 0,
                m22: 1,
                m31: translation.dx as int,
                m32: translation.dy as int,
            }).post_mul(self@),
    {
        self.pre_mul(Transform::from_translation_vector(translation))
    }

    pub fn post_scale(&self, x: i64, y: i64) -> (r: Transform)
        requires
            self@.fits(),
            fits(x as int),
            fits(y as int),
        ensures
            r@ == self@.post_mul(
                TransformView { m11: x as int, m12: 0, m21: 0, m22: y as int, m31: 0, m32: 0 },
            ),
    {
        self.post_mul(Transform::from_scale(x, y))
    }

    pub fn post_scale_vector(&self, scale: Vector) -> (r: Transform)
        requires
            self@.fits(),
            scale@.fits(),
        ensures
            r@ == self@.post_mul(
                TransformView {
                    m11: scale.dx as int,
                    m12: 0,
                    m21: 0,
                    m22: scale.dy as int,
                    m31: 0,
                    m32: 0,
                },
            ),
    {
        self.post_mul(Transform::from_scale_vector(scale))
    }

    pub fn pre_scale(&self, x: i64, y: i64) -> (r: Transform)
        requires
            self@.fits(),
            fits(x as int),
            fits(y as int),
        ensures
            r@ == (TransformView {
                m11: x as int,
                m12: 0,
                m21: 0,
                m22: y as int,
                m31: 0,
                m32: 0,
            }).post_mul(self@),
    {
        self.pre_mul(Transform::from_scale(x, y))
    }

    pub fn pre_scale_vector(&self, scale: Vector) -> (r: Transform)
        requires
            self@.fits(),
            scale@.fits(),
        ensures
            r@ == (TransformView {
                m11: scale.dx as int,
                m12: 0,
                m21: 0,
                m22: scale.dy as int,
                m31: 0,
                m32: 0,
            }).post_mul(self@),
    {
        self.pre_mul(Transform::from_scale_vector(scale))
    }

    /// All six entries passed through `f`.
    pub fn map<F: Fn(i64) -> i64>(self, f: F) -> (r: Transform)
        requires
            call_requires(f, (self.m11,)),
            call_requires(f, (self.m12,)),
            call_requires(f, (self.m21,)),
            call_requires(f, (self.m22,)),
            call_requires(f, (self.m31,)),
            call_requires(f, (self.m32,)),
        ensures
            call_ensures(f, (self.m11,), r.m11),
            call_ensures(f, (self.m12,), r.m12),
            call_ensures(f, (self.m21,), r.m21),
            call_ensures(f, (self.m22,), r.m22),
            call_ensures(f, (self.m31,), r.m31),
            call_ensures(f, (self.m32,), r.m32),
    {
        Transform::row_major(
            f(self.m11),
            f(self.m12),
            f(self.m21),
            f(self.m22),
            f(self.m31),
            f(self.m32),
        )
    }

    /// Returns `None` exactly when the determinant is zero; otherwise the
    /// exact inverse in rational form, as the adjugate matrix over the
    /// determinant (integer entries cannot hold the quotients themselves, so
    /// the division of the inverse formula is left indicated: entry `(i, j)`
    /// of the inverse is `matrix.mij / denominator`).
    pub fn inverse(&self) -> (r: Option<ScaledTransform>)
        requires
            self@.fits(),
        ensures
            match r {
                Some(inv) => self@.determinant() != 0 && inv.denominator == self@.determinant()
                    && inv.matrix@ == self@.adjugate() && self@.post_mul(inv.matrix@)
                    == TransformView::scaled_identity(self@.determinant()),
                None => self@.determinant() == 0,
            },
    {
        let det = self.determinant();
        if det == 0 {
            return None;
        }
        let a31 = mul_wide(self.m21, self.m32) - mul_wide(self.m22, self.m31);
        let a32 = mul_wide(self.m31, self.m12) - mul_wide(self.m11, self.m32);
        let matrix = Transform::row_major(self.m22, 0 - self.m12, 0 - self.m21, self.m11, a31, a32);
        proof {
            lemma_inverse_round_trip(self@);
        }
        Some(ScaledTransform { matrix, denominator: det })
    }
}

/// A transform read over a common denominator: the value represented is
/// `matrix / denominator`, entry by entry. [`Transform::inverse`] returns the
/// exact inverse in this form, since its entries are quotients that integer
/// coordinates cannot hold directly.
#[derive(Clone, Copy, Debug, PartialEq, Eq, Structural)]
pub struct ScaledTransform {
    pub matrix: Transform,
    pub denominator: i64,
}

impl Default for Transform {
    /// The identity transform.
    fn default() -> (r: Transform)
        ensures
            r@ == TransformView::identity(),
    {
        Transform::identity()
    }
}

/// Composing with the identity on either side leaves a transform unchanged.
pub proof fn lemma_identity_composition(t: TransformView)
    ensures
        t.post_mul(TransformView::identity()) == t,
        TransformView::identity().post_mul(t) == t,
{
    assert(t.post_mul(TransformView::identity()) =~= t);
    assert(TransformView::identity().post_mul(t) =~= t);
}

/// Composition order means application order: applying `a.post_mul(b)` to a
/// displacement is applying `a` first and `b` second.
pub proof fn lemma_composition_applies_in_order(a: TransformView, b: TransformView, v: VectorView)
    ensures
        a.post_mul(b).apply(v) == b.apply(a.apply(v)),
{
    broadcast use vstd::arithmetic::mul::group_mul_properties;

    assert(a.post_mul(b).apply(v) =~= b.apply(a.apply(v)));
}

/// Composition is associative: the linear blocks compose as 2x2 products and
/// the translation row threads through either way.
pub proof fn lemma_post_mul_associative(a: TransformView, b: TransformView, c: TransformView)
    ensures
        a.post_mul(b).post_mul(c) == a.post_mul(b.post_mul(c)),
{
    lemma_row_regroup(a.m11, a.m12, b.m11, b.m12, b.m21, b.m22, c.m11, c.m21);
    lemma_row_regroup(a.m11, a.m12, b.m11, b.m12, b.m21, b.m22, c.m12, c.m22);
    lemma_row_regroup(a.m21, a.m22, b.m11, b.m12, b.m21, b.m22, c.m11, c.m21);
    lemma_row_regroup(a.m21, a.m22, b.m11, b.m12, b.m21, b.m22, c.m12, c.m22);
    lemma_row_regroup(a.m31, a.m32, b.m11, b.m12, b.m21, b.m22, c.m11, c.m21);
    lemma_row_regroup(a.m31, a.m32, b.m11, b.m12, b.m21, b.m22, c.m12, c.m22);
    assert((a.m31 * b.m11 + a.m32 * b.m21 + b.m31) * c.m11 == (a.m31 * b.m11 + a.m32 * b.m21)
        * c.m11 + b.m31 * c.m11) by (nonlinear_arith);
    assert((a.m31 * b.m12 + a.m32 * b.m22 + b.m32) * c.m21 == (a.m31 * b.m12 + a.m32 * b.m22)
        * c.m21 + b.m32 * c.m21) by (nonlinear_arith);
    assert((a.m31 * b.m11 + a.m32 * b.m21 + b.m31) * c.m12 == (a.m31 * b.m11 + a.m32 * b.m21)
        * c.m12 + b.m31 * c.m12) by (nonlinear_arith);
    assert((a.m31 * b.m12 + a.m32 * b.m22 + b.m32) * c.m22 == (a.m31 * b.m12 + a.m32 * b.m22)
        * c.m22 + b.m32 * c.m22) by (nonlinear_arith);
    assert(a.post_mul(b).post_mul(c) =~= a.post_mul(b.post_mul(c)));
}

/// Regrouping one row-times-column term of a triple product: multiplying the
/// pair `(x, y)` through `b`'s columns and then by `(w, s)` equals
/// multiplying `(x, y)` by the recombined column.
proof fn lemma_row_regroup(x: int, y: int, p: int, q: int, u: int, v: int, w: int, s: int)
    ensures
        (x * p + y * u) * w + (x * q + y * v) * s == x * (p * w + q * s) + y * (u * w + v * s),
{
    vstd::arithmetic::mul::lemma_mul_is_distributive_add_other_way(w, x * p, y * u);
    vstd::arithmetic::mul::lemma_mul_is_distributive_add_other_way(s, x * q, y * v);
    vstd::arithmetic::mul::lemma_mul_is_associative(x, p, w);
    vstd::arithmetic::mul::lemma_mul_is_associative(y, u, w);
    vstd::arithmetic::mul::lemma_mul_is_associative(x, q, s);
    vstd::arithmetic::mul::lemma_mul_is_associative(y, v, s);
    vstd::arithmetic::mul::lemma_mul_is_distributive_add(x, p * w, q * s);
    vstd::arithmetic::mul::lemma_mul_is_distributive_add(y, u * w, v * s);
}

/// The inverse round trip, in exact rational form: composing any transform
/// with its adjugate yields the determinant-scaled identity, so after the
/// division by a non-zero determinant the product is exactly the identity.
pub proof fn lemma_inverse_round_trip(t: TransformView)
    ensures
        t.post_mul(t.adjugate()) == TransformView::scaled_identity(t.determinant()),
{
    let d = t.determinant();
    assert(t.m11 * t.m22 + t.m12 * (0 - t.m21) == d) by (nonlinear_arith)
        requires
            t.m11 * t.m22 - t.m12 * t.m21 == d,
    ;
    assert(t.m11 * (0 - t.m12) + t.m12 * t.m11 == 0) by (nonlinear_arith);
    assert(t.m21 * t.m22 + t.m22 * (0 - t.m21) == 0) by (nonlinear_arith);
    assert(t.m21 * (0 - t.m12) + t.m22 * t.m11 == d) by (nonlinear_arith)
        requires
            t.m11 * t.m22 - t.m12 * t.m21 == d,
    ;
    assert(t.m31 * t.m22 + t.m32 * (0 - t.m21) + (t.m21 * t.m32 - t.m22 * t.m31) == 0)
        by (nonlinear_arith);
    assert(t.m31 * (0 - t.m12) + t.m32 * t.m11 + (t.m31 * t.m12 - t.m11 * t.m32) == 0)
        by (nonlinear_arith);
    assert(t.post_mul(t.adjugate()) =~= TransformView::scaled_identity(d));
}

} // verus!
