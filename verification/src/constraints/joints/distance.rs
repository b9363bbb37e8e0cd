//! The distance joint.

use crate::body::RigidBody;
use crate::constraints::joints::{DistanceLimit, Joint};
use crate::constraints::{
    apply_positional_correction, compute_force, compute_generalized_inverse_mass,
    compute_lagrange_update, lemma_immovable_uncorrected, spec_corrected, spec_force,
    spec_generalized_inverse_mass, spec_lagrange_update, XpbdConstraint,
};
use crate::scalar::{Scalar, EPSILON_RAW};
use crate::vector::Vector;
use bevy::ecs::entity::Entity;
use vstd::prelude::*;

verus! {

/// A distance joint keeps two attachment points, one on each body, at a certain
/// distance from each other, and leaves the bodies free to turn about them.
///
/// Distance joints can serve as springs, muscles and the edges of mass-spring
/// networks.
#[derive(Clone, Copy, Debug, PartialEq)]
pub struct DistanceJoint {
    /// First body constrained by the joint.
    pub entity1: Entity,
    /// Second body constrained by the joint.
    pub entity2: Entity,
    /// Attachment point on the first body.
    pub local_anchor1: Vector,
    /// Attachment point on the second body.
    pub local_anchor2: Vector,
    /// The distance at which the attachment points are kept.
    pub rest_length: Scalar,
    /// The range of distances that the joint allows, if it has one.
    pub length_limits: Option<DistanceLimit>,
    /// Linear damping applied by the joint.
    pub damping_linear: Scalar,
    /// Angular damping applied by the joint.
    pub damping_angular: Scalar,
    /// Lagrange multiplier for the positional correction.
    pub lagrange: Scalar,
    /// The joint's compliance, the inverse of stiffness.
    pub compliance: Scalar,
    /// The force that the joint exerted in the last call of `solve`.
    pub force: Vector,
}

impl DistanceJoint {
    /// The first attachment point's offset from its body, in world space.
    pub open spec fn spec_world_r1(self, body1: RigidBody) -> Vector {
        body1.rotation.spec_rotate(self.local_anchor1)
    }

    /// The second attachment point's offset from its body, in world space.
    pub open spec fn spec_world_r2(self, body2: RigidBody) -> Vector {
        body2.rotation.spec_rotate(self.local_anchor2)
    }

    /// The vector from the second attachment point to the first, with the limits'
    /// correction added where the joint has limits.
    pub open spec fn spec_separation(self, body1: RigidBody, body2: RigidBody) -> Vector {
        let p1 = body1.position.spec_plus(self.spec_world_r1(body1));
        let p2 = body2.position.spec_plus(self.spec_world_r2(body2));
        let delta_x = p1.spec_minus(p2);
        match self.length_limits {
            Some(limits) => delta_x.spec_plus(limits.spec_compute_correction(p1, p2)),
            None => delta_x,
        }
    }

    /// The value of the constraint: the separation's length less the rest length.
    pub open spec fn spec_violation(self, body1: RigidBody, body2: RigidBody) -> Scalar {
        self.spec_separation(body1, body2).spec_length().spec_minus(self.rest_length)
    }

    /// Whether `solve` has nothing to do: the separation has no length to speak of,
    /// or its length is the rest length within the tolerance.
    pub open spec fn spec_is_settled(self, body1: RigidBody, body2: RigidBody) -> bool {
        self.spec_separation(body1, body2).spec_length()@ < EPSILON_RAW || self.spec_violation(
            body1,
            body2,
        ).spec_abs()@ < EPSILON_RAW
    }

    /// The direction of the correction: the separation over its length.
    pub open spec fn spec_direction(self, body1: RigidBody, body2: RigidBody) -> Vector {
        let delta_x = self.spec_separation(body1, body2);
        delta_x.spec_unscale(delta_x.spec_length())
    }

    /// The increment that one call of `solve` adds to the multiplier, where the joint
    /// is not settled.
    pub open spec fn spec_delta_lagrange(
        self,
        body1: RigidBody,
        body2: RigidBody,
        dt: Scalar,
    ) -> Scalar {
        let n = self.spec_direction(body1, body2);
        let w1 = spec_generalized_inverse_mass(body1, self.spec_world_r1(body1), n);
        let w2 = spec_generalized_inverse_mass(body2, self.spec_world_r2(body2), n);
        spec_lagrange_update(
            self.lagrange,
            self.spec_violation(body1, body2),
            w1,
            w2,
            self.compliance,
            dt,
        )
    }

    /// The multiplier after one call of `solve`.
    pub open spec fn spec_lagrange_solved(
        self,
        body1: RigidBody,
        body2: RigidBody,
        dt: Scalar,
    ) -> Scalar {
        if self.spec_is_settled(body1, body2) {
            self.lagrange
        } else {
            self.lagrange.spec_plus(self.spec_delta_lagrange(body1, body2, dt))
        }
    }

    /// The force that one call of `solve` records: zero where the joint is settled,
    /// else the new multiplier's force along the direction.
    pub open spec fn spec_force_solved(
        self,
        body1: RigidBody,
        body2: RigidBody,
        dt: Scalar,
    ) -> Vector {
        if self.spec_is_settled(body1, body2) {
            Vector::spec_zero()
        } else {
            spec_force(
                self.spec_lagrange_solved(body1, body2, dt),
                self.spec_direction(body1, body2),
                dt,
            )
        }
    }

    /// The first body after one call of `solve`.
    pub open spec fn spec_body1_solved(
        self,
        body1: RigidBody,
        body2: RigidBody,
        dt: Scalar,
    ) -> RigidBody {
        if self.spec_is_settled(body1, body2) {
            body1
        } else {
            spec_corrected(
                body1,
                self.spec_direction(body1, body2).spec_scale(
                    self.spec_delta_lagrange(body1, body2, dt),
                ),
                self.spec_world_r1(body1),
            )
        }
    }

    /// The second body after one call of `solve`.
    pub open spec fn spec_body2_solved(
        self,
        body1: RigidBody,
        body2: RigidBody,
        dt: Scalar,
    ) -> RigidBody {
        if self.spec_is_settled(body1, body2) {
            body2
        } else {
            spec_corrected(
                body2,
                self.spec_direction(body1, body2).spec_neg().spec_scale(
                    self.spec_delta_lagrange(body1, body2, dt),
                ),
                self.spec_world_r2(body2),
            )
        }
    }

    /// The joint after one call of `solve`: only the multiplier and the force change.
    pub open spec fn spec_joint_solved(
        self,
        body1: RigidBody,
        body2: RigidBody,
        dt: Scalar,
    ) -> DistanceJoint {
        DistanceJoint {
            lagrange: self.spec_lagrange_solved(body1, body2, dt),
            force: self.spec_force_solved(body1, body2, dt),
            ..self
        }
    }

    /// Constrains the distance between the attachment points, with no constraint on
    /// the bodies' rotation.
    ///
    /// Returns the force exerted by this constraint.
    pub fn constrain_length(
        &mut self,
        body1: &mut RigidBody,
        body2: &mut RigidBody,
        dt: Scalar,
    ) -> (out: Vector)
        ensures
            out == old(self).spec_force_solved(*old(body1), *old(body2), dt),
            *final(self) == (DistanceJoint {
                lagrange: old(self).spec_lagrange_solved(*old(body1), *old(body2), dt),
                ..*old(self)
            }),
            *final(body1) == old(self).spec_body1_solved(*old(body1), *old(body2), dt),
            *final(body2) == old(self).spec_body2_solved(*old(body1), *old(body2), dt),
    {
        let world_r1 = body1.rotation.rotate(self.local_anchor1);
        let world_r2 = body2.rotation.rotate(self.local_anchor2);
        let p1 = body1.position.plus(world_r1);
        let p2 = body2.position.plus(world_r2);

        // The positional difference, biased by the limits where there are any
        let mut delta_x = p1.minus(p2);
        if let Some(limits) = self.length_limits {
            delta_x = delta_x.plus(limits.compute_correction(p1, p2));
        }

        // The current separation distance
        let length = delta_x.length();

        // The value of the constraint function. When this is zero, the
        // constraint is satisfied, and the distance between the bodies is the
        // rest length.
        let c = length.minus(self.rest_length);

        // Avoid division by zero and unnecessary computation.
        if length.less_than(Scalar::epsilon()) || c.abs().less_than(Scalar::epsilon()) {
            return Vector::zero();
        }

        // Normalized delta_x
        let n = delta_x.unscale(length);

        // Generalized inverse masses along the gradients `n` and `-n`
        let w1 = compute_generalized_inverse_mass(body1, world_r1, n);
        let w2 = compute_generalized_inverse_mass(body2, world_r2, n);

        // The signed magnitude of the correction
        let delta_lagrange = compute_lagrange_update(self.lagrange, c, w1, w2, self.compliance, dt);
        self.lagrange = self.lagrange.plus(delta_lagrange);

        apply_positional_correction(body1, body2, delta_lagrange, n, world_r1, world_r2);

        compute_force(self.lagrange, n, dt)
    }

    /// Sets the minimum and maximum distances between the attached bodies.
    pub fn with_limits(self, min: Scalar, max: Scalar) -> (out: DistanceJoint)
        ensures
            out == (DistanceJoint { length_limits: Some(DistanceLimit { min, max }), ..self }),
    {
        DistanceJoint { length_limits: Some(DistanceLimit::new(min, max)), ..self }
    }

    /// Sets the joint's rest length, or distance the bodies will be kept at.
    pub fn with_rest_length(self, rest_length: Scalar) -> (out: DistanceJoint)
        ensures
            out == (DistanceJoint { rest_length, ..self }),
    {
        DistanceJoint { rest_length, ..self }
    }
}

impl XpbdConstraint<2> for DistanceJoint {
    open spec fn spec_entities(self) -> Seq<Entity> {
        seq![self.entity1, self.entity2]
    }

    open spec fn multipliers(self) -> Seq<Scalar> {
        seq![self.lagrange]
    }

    open spec fn spec_solved(self, bodies: Seq<RigidBody>, dt: Scalar) -> DistanceJoint {
        self.spec_joint_solved(bodies[0], bodies[1], dt)
    }

    open spec fn spec_bodies_solved(self, bodies: Seq<RigidBody>, dt: Scalar) -> Seq<RigidBody> {
        seq![
            self.spec_body1_solved(bodies[0], bodies[1], dt),
            self.spec_body2_solved(bodies[0], bodies[1], dt),
        ]
    }

    fn entities(&self) -> (out: [Entity; 2]) {
        let out = [self.entity1, self.entity2];
        assert(out@ =~= self.spec_entities());
        out
    }

    fn clear_lagrange_multipliers(&mut self)
        ensures
            *final(self) == (DistanceJoint { lagrange: Scalar::spec_zero(), ..*old(self) }),
    {
        self.lagrange = Scalar::zero();
    }

    fn solve(&mut self, bodies: &mut [RigidBody; 2], dt: Scalar) {
        let mut body1 = bodies[0];
        let mut body2 = bodies[1];
        self.force = self.constrain_length(&mut body1, &mut body2, dt);
        *bodies = [body1, body2];
        assert(bodies@ =~= old(self).spec_bodies_solved(old(bodies)@, dt));
    }
}

impl Joint for DistanceJoint {
    open spec fn spec_compliance(self) -> Scalar {
        self.compliance
    }

    open spec fn spec_local_anchor_1(self) -> Vector {
        self.local_anchor1
    }

    open spec fn spec_local_anchor_2(self) -> Vector {
        self.local_anchor2
    }

    open spec fn spec_damping_linear(self) -> Scalar {
        self.damping_linear
    }

    open spec fn spec_damping_angular(self) -> Scalar {
        self.damping_angular
    }

    fn new(entity1: Entity, entity2: Entity) -> (out: DistanceJoint)
        ensures
            out == (DistanceJoint {
                entity1,
                entity2,
                local_anchor1: Vector::spec_zero(),
                local_anchor2: Vector::spec_zero(),
                rest_length: Scalar::spec_zero(),
                length_limits: None,
                damping_linear: Scalar::spec_zero(),
                damping_angular: Scalar::spec_zero(),
                lagrange: Scalar::spec_zero(),
                compliance: Scalar::spec_zero(),
                force: Vector::spec_zero(),
            }),
    {
        DistanceJoint {
            entity1,
            entity2,
            local_anchor1: Vector::zero(),
            local_anchor2: Vector::zero(),
            rest_length: Scalar::zero(),
            length_limits: None,
            damping_linear: Scalar::zero(),
            damping_angular: Scalar::zero(),
            lagrange: Scalar::zero(),
            compliance: Scalar::zero(),
            force: Vector::zero(),
        }
    }

    fn with_compliance(self, compliance: Scalar) -> (out: DistanceJoint)
        ensures
            out == (DistanceJoint { compliance, ..self }),
    {
        DistanceJoint { compliance, ..self }
    }

    fn with_local_anchor_1(self, anchor: Vector) -> (out: DistanceJoint)
        ensures
            out == (DistanceJoint { local_anchor1: anchor, ..self }),
    {
        DistanceJoint { local_anchor1: anchor, ..self }
    }

    fn with_local_anchor_2(self, anchor: Vector) -> (out: DistanceJoint)
        ensures
            out == (DistanceJoint { local_anchor2: anchor, ..self }),
    {
        DistanceJoint { local_anchor2: anchor, ..self }
    }

    fn with_linear_velocity_damping(self, damping: Scalar) -> (out: DistanceJoint)
        ensures
            out == (DistanceJoint { damping_linear: damping, ..self }),
    {
        DistanceJoint { damping_linear: damping, ..self }
    }

    fn with_angular_velocity_damping(self, damping: Scalar) -> (out: DistanceJoint)
        ensures
            out == (DistanceJoint { damping_angular: damping, ..self }),
    {
        DistanceJoint { damping_angular: damping, ..self }
    }

    fn local_anchor_1(&self) -> (out: Vector) {
        self.local_anchor1
    }

    fn local_anchor_2(&self) -> (out: Vector) {
        self.local_anchor2
    }

    fn damping_linear(&self) -> (out: Scalar) {
        self.damping_linear
    }

    fn damping_angular(&self) -> (out: Scalar) {
        self.damping_angular
    }
}

/// The joint and the two bodies after `n` calls of `solve` in a row.
pub open spec fn spec_solved_repeatedly(
    joint: DistanceJoint,
    body1: RigidBody,
    body2: RigidBody,
    dt: Scalar,
    n: nat,
) -> (DistanceJoint, RigidBody, RigidBody)
    decreases n,
{
    if n == 0 {
        (joint, body1, body2)
    } else {
        let (j, b1, b2) = spec_solved_repeatedly(joint, body1, body2, dt, (n - 1) as nat);
        (
            j.spec_joint_solved(b1, b2, dt),
            j.spec_body1_solved(b1, b2, dt),
            j.spec_body2_solved(b1, b2, dt),
        )
    }
}

/// Equilibrium: where a joint without limits finds its attachment points exactly the
/// rest length apart, `solve` leaves both bodies and the multiplier as they are and
/// records a zero force.
pub proof fn lemma_equilibrium(joint: DistanceJoint, body1: RigidBody, body2: RigidBody, dt: Scalar)
    requires
        joint.length_limits is None,
        joint.spec_separation(body1, body2).spec_length() == joint.rest_length,
    ensures
        joint.spec_body1_solved(body1, body2, dt) == body1,
        joint.spec_body2_solved(body1, body2, dt) == body2,
        joint.spec_force_solved(body1, body2, dt) == Vector::spec_zero(),
        joint.spec_lagrange_solved(body1, body2, dt) == joint.lagrange,
{
}

/// A body that cannot be moved or turned is left as it is by `solve`, whichever end
/// of the joint it is on: the whole correction goes to the other body.
pub proof fn lemma_immovable_body_unchanged(
    joint: DistanceJoint,
    body1: RigidBody,
    body2: RigidBody,
    dt: Scalar,
)
    ensures
        body1.is_immovable() ==> joint.spec_body1_solved(body1, body2, dt) == body1,
        body2.is_immovable() ==> joint.spec_body2_solved(body1, body2, dt) == body2,
{
    let delta = joint.spec_delta_lagrange(body1, body2, dt);
    let n = joint.spec_direction(body1, body2);
    if body1.is_immovable() {
        lemma_immovable_uncorrected(body1, n.spec_scale(delta), joint.spec_world_r1(body1));
    }
    if body2.is_immovable() {
        lemma_immovable_uncorrected(
            body2,
            n.spec_neg().spec_scale(delta),
            joint.spec_world_r2(body2),
        );
    }
}

/// A settled joint stays settled: however often `solve` is called on a joint whose
/// separation has no length to speak of, or is the rest length within the tolerance,
/// the bodies and the multiplier never change and the recorded force is zero.
pub proof fn lemma_settled_joint_stays(
    joint: DistanceJoint,
    body1: RigidBody,
    body2: RigidBody,
    dt: Scalar,
    n: nat,
)
    requires
        joint.spec_is_settled(body1, body2),
        n >= 1,
    ensures
        spec_solved_repeatedly(joint, body1, body2, dt, n) == (
            DistanceJoint { force: Vector::spec_zero(), ..joint },
            body1,
            body2,
        ),
    decreases n,
{
    let rested = DistanceJoint { force: Vector::spec_zero(), ..joint };
    assert(rested.spec_separation(body1, body2) == joint.spec_separation(body1, body2));
    assert(rested.spec_is_settled(body1, body2));
    if n == 1 {
        assert(spec_solved_repeatedly(joint, body1, body2, dt, 0) == (joint, body1, body2));
    } else {
        lemma_settled_joint_stays(joint, body1, body2, dt, (n - 1) as nat);
    }
}

} // verus!
