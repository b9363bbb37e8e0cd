//! Joints: constraints that the application sets up between two bodies.

pub mod distance;

use crate::scalar::{Scalar, EPSILON_RAW};
use crate::vector::Vector;
use bevy::ecs::entity::Entity;
use vstd::prelude::*;

verus! {

/// How a joint is set up: made between two bodies with every setting at zero, then
/// configured setting by setting.
pub trait Joint: Sized {
    /// The joint's compliance, the inverse of its stiffness.
    spec fn spec_compliance(self) -> Scalar;

    /// The attachment point on the first body, in that body's frame.
    spec fn spec_local_anchor_1(self) -> Vector;

    /// The attachment point on the second body, in that body's frame.
    spec fn spec_local_anchor_2(self) -> Vector;

    /// The damping of the bodies' relative linear velocity.
    spec fn spec_damping_linear(self) -> Scalar;

    /// The damping of the bodies' relative angular velocity.
    spec fn spec_damping_angular(self) -> Scalar;

    fn new(entity1: Entity, entity2: Entity) -> (out: Self)
        ensures
            out.spec_compliance() == Scalar::spec_zero(),
            out.spec_local_anchor_1() == Vector::spec_zero(),
            out.spec_local_anchor_2() == Vector::spec_zero(),
            out.spec_damping_linear() == Scalar::spec_zero(),
            out.spec_damping_angular() == Scalar::spec_zero(),
    ;

    fn with_compliance(self, compliance: Scalar) -> (out: Self)
        ensures
            out.spec_compliance() == compliance,
            out.spec_local_anchor_1() == self.spec_local_anchor_1(),
            out.spec_local_anchor_2() == self.spec_local_anchor_2(),
            out.spec_damping_linear() == self.spec_damping_linear(),
            out.spec_damping_angular() == self.spec_damping_angular(),
    ;

    fn with_local_anchor_1(self, anchor: Vector) -> (out: Self)
        ensures
            out.spec_compliance() == self.spec_compliance(),
            out.spec_local_anchor_1() == anchor,
            out.spec_local_anchor_2() == self.spec_local_anchor_2(),
            out.spec_damping_linear() == self.spec_damping_linear(),
            out.spec_damping_angular() == self.spec_damping_angular(),
    ;

    fn with_local_anchor_2(self, anchor: Vector) -> (out: Self)
        ensures
            out.spec_compliance() == self.spec_compliance(),
            out.spec_local_anchor_1() == self.spec_local_anchor_1(),
            out.spec_local_anchor_2() == anchor,
            out.spec_damping_linear() == self.spec_damping_linear(),
            out.spec_damping_angular() == self.spec_damping_angular(),
    ;

    fn with_linear_velocity_damping(self, damping: Scalar) -> (out: Self)
        ensures
            out.spec_compliance() == self.spec_compliance(),
            out.spec_local_anchor_1() == self.spec_local_anchor_1(),
            out.spec_local_anchor_2() == self.spec_local_anchor_2(),
            out.spec_damping_linear() == damping,
            out.spec_damping_angular() == self.spec_damping_angular(),
    ;

    fn with_angular_velocity_damping(self, damping: Scalar) -> (out: Self)
        ensures
            out.spec_compliance() == self.spec_compliance(),
            out.spec_local_anchor_1() == self.spec_local_anchor_1(),
            out.spec_local_anchor_2() == self.spec_local_anchor_2(),
            out.spec_damping_linear() == self.spec_damping_linear(),
            out.spec_damping_angular() == damping,
    ;

    fn local_anchor_1(&self) -> (out: Vector)
        ensures
            out == self.spec_local_anchor_1(),
    ;

    fn local_anchor_2(&self) -> (out: Vector)
        ensures
            out == self.spec_local_anchor_2(),
    ;

    fn damping_linear(&self) -> (out: Scalar)
        ensures
            out == self.spec_damping_linear(),
    ;

    fn damping_angular(&self) -> (out: Scalar)
        ensures
            out == self.spec_damping_angular(),
    ;
}

/// The least and the greatest distance that a joint allows between two points.
#[derive(Clone, Copy, Debug, PartialEq, Eq, Structural)]
pub struct DistanceLimit {
    pub min: Scalar,
    pub max: Scalar,
}

impl DistanceLimit {
    /// The vector that takes the distance from `p1` to `p2` back into the range: along
    /// the line through the points, as long as the distance is short of `min` or
    /// in excess of `max`; zero inside the range and where the points coincide.
    pub open spec fn spec_compute_correction(self, p1: Vector, p2: Vector) -> Vector {
        let offset = p2.spec_minus(p1);
        let distance = offset.spec_length();
        if distance@ <= EPSILON_RAW {
            Vector::spec_zero()
        } else if distance@ < self.min@ {
            offset.spec_neg().spec_unscale(distance).spec_scale(distance.spec_minus(self.min))
        } else if distance@ > self.max@ {
            offset.spec_neg().spec_unscale(distance).spec_scale(distance.spec_minus(self.max))
        } else {
            Vector::spec_zero()
        }
    }

    pub fn new(min: Scalar, max: Scalar) -> (out: DistanceLimit)
        ensures
            out == (DistanceLimit { min, max }),
    {
        DistanceLimit { min, max }
    }

    pub fn compute_correction(&self, p1: Vector, p2: Vector) -> (out: Vector)
        ensures
            out == self.spec_compute_correction(p1, p2),
    {
        let offset = p2.minus(p1);
        let distance = offset.length();
        if distance.at_most(Scalar::epsilon()) {
            Vector::zero()
        } else if distance.less_than(self.min) {
            offset.neg().unscale(distance).scale(distance.minus(self.min))
        } else if self.max.less_than(distance) {
            offset.neg().unscale(distance).scale(distance.minus(self.max))
        } else {
            Vector::zero()
        }
    }
}

} // verus!
