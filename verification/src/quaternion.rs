//! Quaternions, which hold a body's rotation.

use crate::root::{norm, spec_norm};
use crate::scalar::Scalar;
use crate::vector::Vector;
use vstd::prelude::*;

verus! {

/// A quaternion `w + xi + yj + zk`.
#[derive(Clone, Copy, Debug, PartialEq, Eq, Structural)]
pub struct Quaternion {
    pub x: Scalar,
    pub y: Scalar,
    pub z: Scalar,
    pub w: Scalar,
}

impl Quaternion {
    /// The rotation that turns nothing.
    pub open spec fn spec_identity() -> Quaternion {
        Quaternion {
            x: Scalar::spec_zero(),
            y: Scalar::spec_zero(),
            z: Scalar::spec_zero(),
            w: Scalar::spec_one(),
        }
    }

    /// The quaternion with vector part `v` and no real part.
    pub open spec fn spec_from_vector(v: Vector) -> Quaternion {
        Quaternion { x: v.x, y: v.y, z: v.z, w: Scalar::spec_zero() }
    }

    /// The vector part.
    pub open spec fn spec_vector_part(self) -> Vector {
        Vector { x: self.x, y: self.y, z: self.z }
    }

    /// The sum, component by component.
    pub open spec fn spec_plus(self, rhs: Quaternion) -> Quaternion {
        Quaternion {
            x: self.x.spec_plus(rhs.x),
            y: self.y.spec_plus(rhs.y),
            z: self.z.spec_plus(rhs.z),
            w: self.w.spec_plus(rhs.w),
        }
    }

    /// The Hamilton product `self * rhs`.
    pub open spec fn spec_times(self, rhs: Quaternion) -> Quaternion {
        Quaternion {
            x: self.w.spec_times(rhs.x).spec_plus(self.x.spec_times(rhs.w)).spec_plus(
                self.y.spec_times(rhs.z),
            ).spec_minus(self.z.spec_times(rhs.y)),
            y: self.w.spec_times(rhs.y).spec_minus(self.x.spec_times(rhs.z)).spec_plus(
                self.y.spec_times(rhs.w),
            ).spec_plus(self.z.spec_times(rhs.x)),
            z: self.w.spec_times(rhs.z).spec_plus(self.x.spec_times(rhs.y)).spec_minus(
                self.y.spec_times(rhs.x),
            ).spec_plus(self.z.spec_times(rhs.w)),
            w: self.w.spec_times(rhs.w).spec_minus(self.x.spec_times(rhs.x)).spec_minus(
                self.y.spec_times(rhs.y),
            ).spec_minus(self.z.spec_times(rhs.z)),
        }
    }

    /// The Euclidean length of the four components.
    pub open spec fn spec_length(self) -> Scalar {
        Scalar { raw: spec_norm(self.x@, self.y@, self.z@, self.w@) as i64 }
    }

    /// Each component divided by the length.
    pub open spec fn spec_normalize(self) -> Quaternion {
        let len = self.spec_length();
        Quaternion {
            x: self.x.spec_over(len),
            y: self.y.spec_over(len),
            z: self.z.spec_over(len),
            w: self.w.spec_over(len),
        }
    }

    /// The vector `v` turned by this rotation: with `b` the vector part,
    /// `v (w² − b·b) + 2 b (v·b) + 2 w (b × v)`.
    pub open spec fn spec_rotate(self, v: Vector) -> Vector {
        let b = self.spec_vector_part();
        let two = Scalar::spec_from_int(2);
        v.spec_scale(self.w.spec_times(self.w).spec_minus(b.spec_dot(b))).spec_plus(
            b.spec_scale(v.spec_dot(b).spec_times(two)),
        ).spec_plus(b.spec_cross(v).spec_scale(self.w.spec_times(two)))
    }

    pub fn identity() -> (out: Quaternion)
        ensures
            out == Quaternion::spec_identity(),
    {
        Quaternion { x: Scalar::zero(), y: Scalar::zero(), z: Scalar::zero(), w: Scalar::one() }
    }

    pub fn from_vector(v: Vector) -> (out: Quaternion)
        ensures
            out == Quaternion::spec_from_vector(v),
    {
        Quaternion { x: v.x, y: v.y, z: v.z, w: Scalar::zero() }
    }

    pub fn vector_part(self) -> (out: Vector)
        ensures
            out == self.spec_vector_part(),
    {
        Vector { x: self.x, y: self.y, z: self.z }
    }

    pub fn plus(self, rhs: Quaternion) -> (out: Quaternion)
        ensures
            out == self.spec_plus(rhs),
    {
        Quaternion {
            x: self.x.plus(rhs.x),
            y: self.y.plus(rhs.y),
            z: self.z.plus(rhs.z),
            w: self.w.plus(rhs.w),
        }
    }

    pub fn times(self, rhs: Quaternion) -> (out: Quaternion)
        ensures
            out == self.spec_times(rhs),
    {
        Quaternion {
            x: self.w.times(rhs.x).plus(self.x.times(rhs.w)).plus(self.y.times(rhs.z)).minus(
                self.z.times(rhs.y),
            ),
            y: self.w.times(rhs.y).minus(self.x.times(rhs.z)).plus(self.y.times(rhs.w)).plus(
                self.z.times(rhs.x),
            ),
            z: self.w.times(rhs.z).plus(self.x.times(rhs.y)).minus(self.y.times(rhs.x)).plus(
                self.z.times(rhs.w),
            ),
            w: self.w.times(rhs.w).minus(self.x.times(rhs.x)).minus(self.y.times(rhs.y)).minus(
                self.z.times(rhs.z),
            ),
        }
    }

    pub fn length(self) -> (out: Scalar)
        ensures
            out == self.spec_length(),
            out@ >= 0,
    {
        Scalar { raw: norm(self.x.raw, self.y.raw, self.z.raw, self.w.raw) }
    }

    pub fn normalize(self) -> (out: Quaternion)
        ensures
            out == self.spec_normalize(),
    {
        let len = self.length();
        Quaternion {
            x: self.x.over(len),
            y: self.y.over(len),
            z: self.z.over(len),
            w: self.w.over(len),
        }
    }

    pub fn rotate(self, v: Vector) -> (out: Vector)
        ensures
            out == self.spec_rotate(v),
    {
        let b = self.vector_part();
        let two = Scalar::from_int(2);
        v.scale(self.w.times(self.w).minus(b.dot(b))).plus(b.scale(v.dot(b).times(two))).plus(
            b.cross(v).scale(self.w.times(two)),
        )
    }
}

} // verus!
