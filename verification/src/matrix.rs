//! The transform of a drawing context: an affine map of the plane, held as a matrix of three
//! rows and two columns of binary32 numbers. A point is a row vector `(x, y, 1)` to the left of
//! the matrix, so that in a product the left factor applies first.

use vstd::prelude::*;
use crate::single::Single;

verus! {

#[derive(Clone, Copy, Debug, PartialEq, Eq, Structural)]
pub struct Matrix2D {
    pub m11: Single,
    pub m12: Single,
    pub m21: Single,
    pub m22: Single,
    pub m31: Single,
    pub m32: Single,
}

impl Matrix2D {
    pub open spec fn spec_new(
        m11: Single,
        m12: Single,
        m21: Single,
        m22: Single,
        m31: Single,
        m32: Single,
    ) -> Matrix2D {
        Matrix2D { m11, m12, m21, m22, m31, m32 }
    }

    #[verifier::when_used_as_spec(spec_new)]
    pub fn new(m11: Single, m12: Single, m21: Single, m22: Single, m31: Single, m32: Single) -> (r:
        Matrix2D)
        ensures
            r == Matrix2D::spec_new(m11, m12, m21, m22, m31, m32),
    {
        Matrix2D { m11, m12, m21, m22, m31, m32 }
    }

    /// The map that moves no point.
    pub open spec fn spec_identity() -> Matrix2D {
        Matrix2D::spec_new(
            Single::spec_one(),
            Single::spec_zero(false),
            Single::spec_zero(false),
            Single::spec_one(),
            Single::spec_zero(false),
            Single::spec_zero(false),
        )
    }

    #[verifier::when_used_as_spec(spec_identity)]
    pub fn identity() -> (r: Matrix2D)
        ensures
            r == Matrix2D::spec_identity(),
    {
        Matrix2D::new(
            Single::one(),
            Single::zero(false),
            Single::zero(false),
            Single::one(),
            Single::zero(false),
            Single::zero(false),
        )
    }

    /// The product `first * self`: the map that applies `first` and then `self`. Each entry
    /// is computed in binary32, the products before the sums and the sums from left to right.
    pub open spec fn spec_mul(self, first: Matrix2D) -> Matrix2D {
        Matrix2D::spec_new(
            first.m11.spec_mul(self.m11).spec_add(first.m12.spec_mul(self.m21)),
            first.m11.spec_mul(self.m12).spec_add(first.m12.spec_mul(self.m22)),
            first.m21.spec_mul(self.m11).spec_add(first.m22.spec_mul(self.m21)),
            first.m21.spec_mul(self.m12).spec_add(first.m22.spec_mul(self.m22)),
            first.m31.spec_mul(self.m11).spec_add(first.m32.spec_mul(self.m21)).spec_add(self.m31),
            first.m31.spec_mul(self.m12).spec_add(first.m32.spec_mul(self.m22)).spec_add(self.m32),
        )
    }

    #[verifier::when_used_as_spec(spec_mul)]
    pub fn mul(self, first: Matrix2D) -> (r: Matrix2D)
        ensures
            r == self.spec_mul(first),
    {
        Matrix2D::new(
            first.m11.mul(self.m11).add(first.m12.mul(self.m21)),
            first.m11.mul(self.m12).add(first.m12.mul(self.m22)),
            first.m21.mul(self.m11).add(first.m22.mul(self.m21)),
            first.m21.mul(self.m12).add(first.m22.mul(self.m22)),
            first.m31.mul(self.m11).add(first.m32.mul(self.m21)).add(self.m31),
            first.m31.mul(self.m12).add(first.m32.mul(self.m22)).add(self.m32),
        )
    }

    /// The map that scales by `x` and `y` along the axes and then applies `self`.
    pub open spec fn spec_scale(self, x: Single, y: Single) -> Matrix2D {
        Matrix2D::spec_new(
            self.m11.spec_mul(x),
            self.m12.spec_mul(x),
            self.m21.spec_mul(y),
            self.m22.spec_mul(y),
            self.m31,
            self.m32,
        )
    }

    #[verifier::when_used_as_spec(spec_scale)]
    pub fn scale(self, x: Single, y: Single) -> (r: Matrix2D)
        ensures
            r == self.spec_scale(x, y),
    {
        Matrix2D::new(
            self.m11.mul(x),
            self.m12.mul(x),
            self.m21.mul(y),
            self.m22.mul(y),
            self.m31,
            self.m32,
        )
    }

    /// The map that moves every point by `(x, y)`.
    pub open spec fn spec_translation(x: Single, y: Single) -> Matrix2D {
        Matrix2D::spec_new(
            Single::spec_one(),
            Single::spec_zero(false),
            Single::spec_zero(false),
            Single::spec_one(),
            x,
            y,
        )
    }

    /// The map that moves by `(x, y)` and then applies `self`.
    pub open spec fn spec_translate(self, x: Single, y: Single) -> Matrix2D {
        self.spec_mul(Matrix2D::spec_translation(x, y))
    }

    #[verifier::when_used_as_spec(spec_translate)]
    pub fn translate(self, x: Single, y: Single) -> (r: Matrix2D)
        ensures
            r == self.spec_translate(x, y),
    {
        self.mul(
            Matrix2D::new(
                Single::one(),
                Single::zero(false),
                Single::zero(false),
                Single::one(),
                x,
                y,
            ),
        )
    }
}

} // verus!
