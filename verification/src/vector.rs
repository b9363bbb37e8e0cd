//! Three-dimensional vectors of fixed-point scalars.

use crate::root::{norm, spec_norm};
use crate::scalar::Scalar;
use vstd::prelude::*;

verus! {

/// A vector in three dimensions.
#[derive(Clone, Copy, Debug, PartialEq, Eq, Structural)]
pub struct Vector {
    pub x: Scalar,
    pub y: Scalar,
    pub z: Scalar,
}

impl Vector {
    /// The zero vector.
    pub open spec fn spec_zero() -> Vector {
        Vector { x: Scalar::spec_zero(), y: Scalar::spec_zero(), z: Scalar::spec_zero() }
    }

    /// The sum, component by component.
    pub open spec fn spec_plus(self, rhs: Vector) -> Vector {
        Vector {
            x: self.x.spec_plus(rhs.x),
            y: self.y.spec_plus(rhs.y),
            z: self.z.spec_plus(rhs.z),
        }
    }

    /// The difference, component by component.
    pub open spec fn spec_minus(self, rhs: Vector) -> Vector {
        Vector {
            x: self.x.spec_minus(rhs.x),
            y: self.y.spec_minus(rhs.y),
            z: self.z.spec_minus(rhs.z),
        }
    }

    /// The opposite vector.
    pub open spec fn spec_neg(self) -> Vector {
        Vector { x: self.x.spec_neg(), y: self.y.spec_neg(), z: self.z.spec_neg() }
    }

    /// Each component multiplied by `s`.
    pub open spec fn spec_scale(self, s: Scalar) -> Vector {
        Vector { x: self.x.spec_times(s), y: self.y.spec_times(s), z: self.z.spec_times(s) }
    }

    /// Each component divided by `s`.
    pub open spec fn spec_unscale(self, s: Scalar) -> Vector {
        Vector { x: self.x.spec_over(s), y: self.y.spec_over(s), z: self.z.spec_over(s) }
    }

    /// The dot product.
    pub open spec fn spec_dot(self, rhs: Vector) -> Scalar {
        self.x.spec_times(rhs.x).spec_plus(self.y.spec_times(rhs.y)).spec_plus(
            self.z.spec_times(rhs.z),
        )
    }

    /// The cross product.
    pub open spec fn spec_cross(self, rhs: Vector) -> Vector {
        Vector {
            x: self.y.spec_times(rhs.z).spec_minus(self.z.spec_times(rhs.y)),
            y: self.z.spec_times(rhs.x).spec_minus(self.x.spec_times(rhs.z)),
            z: self.x.spec_times(rhs.y).spec_minus(self.y.spec_times(rhs.x)),
        }
    }

    /// The Euclidean length, rounded down to a representable scalar.
    pub open spec fn spec_length(self) -> Scalar {
        Scalar { raw: spec_norm(self.x@, self.y@, self.z@, 0) as i64 }
    }

    pub fn zero() -> (out: Vector)
        ensures
            out == Vector::spec_zero(),
    {
        Vector { x: Scalar::zero(), y: Scalar::zero(), z: Scalar::zero() }
    }

    pub fn plus(self, rhs: Vector) -> (out: Vector)
        ensures
            out == self.spec_plus(rhs),
    {
        Vector { x: self.x.plus(rhs.x), y: self.y.plus(rhs.y), z: self.z.plus(rhs.z) }
    }

    pub fn minus(self, rhs: Vector) -> (out: Vector)
        ensures
            out == self.spec_minus(rhs),
    {
        Vector { x: self.x.minus(rhs.x), y: self.y.minus(rhs.y), z: self.z.minus(rhs.z) }
    }

    pub fn neg(self) -> (out: Vector)
        ensures
            out == self.spec_neg(),
    {
        Vector { x: self.x.neg(), y: self.y.neg(), z: self.z.neg() }
    }

    pub fn scale(self, s: Scalar) -> (out: Vector)
        ensures
            out == self.spec_scale(s),
    {
        Vector { x: self.x.times(s), y: self.y.times(s), z: self.z.times(s) }
    }

    pub fn unscale(self, s: Scalar) -> (out: Vector)
        ensures
            out == self.spec_unscale(s),
    {
        Vector { x: self.x.over(s), y: self.y.over(s), z: self.z.over(s) }
    }

    pub fn dot(self, rhs: Vector) -> (out: Scalar)
        ensures
            out == self.spec_dot(rhs),
    {
        self.x.times(rhs.x).plus(self.y.times(rhs.y)).plus(self.z.times(rhs.z))
    }

    pub fn cross(self, rhs: Vector) -> (out: Vector)
        ensures
            out == self.spec_cross(rhs),
    {
        Vector {
            x: self.y.times(rhs.z).minus(self.z.times(rhs.y)),
            y: self.z.times(rhs.x).minus(self.x.times(rhs.z)),
            z: self.x.times(rhs.y).minus(self.y.times(rhs.x)),
        }
    }

    pub fn length(self) -> (out: Scalar)
        ensures
            out == self.spec_length(),
            out@ >= 0,
    {
        Scalar { raw: norm(self.x.raw, self.y.raw, self.z.raw, 0) }
    }

    /// Whether every component is zero.
    pub fn is_zero(self) -> (out: bool)
        ensures
            out == (self == Vector::spec_zero()),
    {
        self.x.raw == 0 && self.y.raw == 0 && self.z.raw == 0
    }
}

/// Scaling by zero gives the zero vector.
pub proof fn lemma_scale_by_zero(v: Vector)
    ensures
        v.spec_scale(Scalar::spec_zero()) == Vector::spec_zero(),
{
    assert(v.x@ * 0 == 0);
    assert(v.y@ * 0 == 0);
    assert(v.z@ * 0 == 0);
}

/// The zero vector scaled by anything is the zero vector.
pub proof fn lemma_scale_of_zero(s: Scalar)
    ensures
        Vector::spec_zero().spec_scale(s) == Vector::spec_zero(),
{
    assert(0 * s@ == 0);
}

/// Adding the zero vector changes nothing.
pub proof fn lemma_plus_zero(v: Vector)
    ensures
        v.spec_plus(Vector::spec_zero()) == v,
{
}

} // verus!
