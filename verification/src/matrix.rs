//! Three-by-three matrices of fixed-point scalars.

use crate::scalar::Scalar;
use crate::vector::Vector;
use vstd::prelude::*;

verus! {

/// A matrix held as its three columns.
#[derive(Clone, Copy, Debug, PartialEq, Eq, Structural)]
pub struct Matrix3 {
    pub x_axis: Vector,
    pub y_axis: Vector,
    pub z_axis: Vector,
}

impl Matrix3 {
    /// The matrix of zeros.
    pub open spec fn spec_zero() -> Matrix3 {
        Matrix3 {
            x_axis: Vector::spec_zero(),
            y_axis: Vector::spec_zero(),
            z_axis: Vector::spec_zero(),
        }
    }

    /// The matrix with `d` on its diagonal and zero elsewhere.
    pub open spec fn spec_from_diagonal(d: Vector) -> Matrix3 {
        Matrix3 {
            x_axis: Vector { x: d.x, y: Scalar::spec_zero(), z: Scalar::spec_zero() },
            y_axis: Vector { x: Scalar::spec_zero(), y: d.y, z: Scalar::spec_zero() },
            z_axis: Vector { x: Scalar::spec_zero(), y: Scalar::spec_zero(), z: d.z },
        }
    }

    /// The product of the matrix and a column vector: the columns weighted by the
    /// vector's components and added up.
    pub open spec fn spec_apply(self, v: Vector) -> Vector {
        self.x_axis.spec_scale(v.x).spec_plus(self.y_axis.spec_scale(v.y)).spec_plus(
            self.z_axis.spec_scale(v.z),
        )
    }

    pub fn zero() -> (out: Matrix3)
        ensures
            out == Matrix3::spec_zero(),
    {
        Matrix3 { x_axis: Vector::zero(), y_axis: Vector::zero(), z_axis: Vector::zero() }
    }

    pub fn from_diagonal(d: Vector) -> (out: Matrix3)
        ensures
            out == Matrix3::spec_from_diagonal(d),
    {
        Matrix3 {
            x_axis: Vector { x: d.x, y: Scalar::zero(), z: Scalar::zero() },
            y_axis: Vector { x: Scalar::zero(), y: d.y, z: Scalar::zero() },
            z_axis: Vector { x: Scalar::zero(), y: Scalar::zero(), z: d.z },
        }
    }

    pub fn apply(self, v: Vector) -> (out: Vector)
        ensures
            out == self.spec_apply(v),
    {
        self.x_axis.scale(v.x).plus(self.y_axis.scale(v.y)).plus(self.z_axis.scale(v.z))
    }
}

/// The matrix of zeros sends every vector to the zero vector.
pub proof fn lemma_zero_matrix_apply(v: Vector)
    ensures
        Matrix3::spec_zero().spec_apply(v) == Vector::spec_zero(),
{
    crate::vector::lemma_scale_of_zero(v.x);
    crate::vector::lemma_scale_of_zero(v.y);
    crate::vector::lemma_scale_of_zero(v.z);
}

} // verus!
