//! The geometry of one contact between two bodies.

use crate::quaternion::Quaternion;
use crate::scalar::Scalar;
use crate::vector::Vector;
use vstd::prelude::*;

verus! {

/// A contact as collision detection reports it.
#[derive(Clone, Copy, Debug, PartialEq, Eq, Structural)]
pub struct ContactData {
    /// The contact point on the first body, in that body's frame.
    pub point1: Vector,
    /// The contact point on the second body, in that body's frame.
    pub point2: Vector,
    /// The contact normal in the first body's frame.
    pub normal: Vector,
    /// How deep the bodies overlap along the normal; positive while they overlap.
    pub penetration: Scalar,
}

impl ContactData {
    /// The contact normal in world space, given the first body's rotation.
    pub open spec fn spec_global_normal1(self, rotation: Quaternion) -> Vector {
        rotation.spec_rotate(self.normal)
    }

    pub fn global_normal1(&self, rotation: Quaternion) -> (out: Vector)
        ensures
            out == self.spec_global_normal1(rotation),
    {
        rotation.rotate(self.normal)
    }
}

} // verus!
