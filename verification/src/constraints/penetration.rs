//! The penetration constraint.

use crate::body::RigidBody;
use crate::constraints::{
    apply_positional_correction, compute_force, compute_generalized_inverse_mass,
    compute_lagrange_update, lemma_first_increment_opposes_violation,
    lemma_immovable_uncorrected, spec_corrected, spec_force, spec_generalized_inverse_mass,
    spec_lagrange_denominator, spec_lagrange_update, XpbdConstraint,
};
use crate::contact::ContactData;
use crate::scalar::{Scalar, EPSILON_RAW, ONE_RAW};
use crate::vector::Vector;
use bevy::ecs::entity::Entity;
use vstd::prelude::*;

verus! {

/// A constraint between two bodies that prevents overlap with a given compliance.
///
/// A compliance of zero makes the constraint infinitely stiff, so that the bodies
/// should not overlap at all.
#[derive(Clone, Copy, Debug, PartialEq)]
pub struct PenetrationConstraint {
    /// First body in the constraint.
    pub entity1: Entity,
    /// Second body in the constraint.
    pub entity2: Entity,
    /// Data associated with the contact.
    pub contact: ContactData,
    /// Vector from the first body's center of mass to the contact point, in the
    /// body's frame.
    pub r1: Vector,
    /// Vector from the second body's center of mass to the contact point, in the
    /// body's frame.
    pub r2: Vector,
    /// Lagrange multiplier for the normal force.
    pub normal_lagrange: Scalar,
    /// Lagrange multiplier for the tangential force.
    pub tangent_lagrange: Scalar,
    /// The constraint's compliance, the inverse of stiffness.
    pub compliance: Scalar,
    /// Normal force acting along the constraint.
    pub normal_force: Vector,
    /// Static friction force acting along this constraint.
    pub static_friction_force: Vector,
}

impl PenetrationConstraint {
    /// The contact normal in world space.
    pub open spec fn spec_normal(self, body1: RigidBody) -> Vector {
        self.contact.spec_global_normal1(body1.rotation)
    }

    /// The first contact offset in world space.
    pub open spec fn spec_world_r1(self, body1: RigidBody) -> Vector {
        body1.rotation.spec_rotate(self.r1)
    }

    /// The second contact offset in world space.
    pub open spec fn spec_world_r2(self, body2: RigidBody) -> Vector {
        body2.rotation.spec_rotate(self.r2)
    }

    /// How deep the bodies overlap where they are now: the vector from the second
    /// contact point to the first, projected on the normal.
    pub open spec fn spec_penetration(self, body1: RigidBody, body2: RigidBody) -> Scalar {
        let p1 = body1.position.spec_plus(body1.rotation.spec_rotate(self.contact.point1));
        let p2 = body2.position.spec_plus(body2.rotation.spec_rotate(self.contact.point2));
        p1.spec_minus(p2).spec_dot(self.spec_normal(body1))
    }

    /// The constraint with the penetration depth measured anew.
    pub open spec fn spec_measured(self, body1: RigidBody, body2: RigidBody) -> PenetrationConstraint {
        PenetrationConstraint {
            contact: ContactData {
                penetration: self.spec_penetration(body1, body2),
                ..self.contact
            },
            ..self
        }
    }

    /// The increment of the normal multiplier.
    pub open spec fn spec_normal_delta(
        self,
        body1: RigidBody,
        body2: RigidBody,
        dt: Scalar,
    ) -> Scalar {
        let normal = self.spec_normal(body1);
        let w1 = spec_generalized_inverse_mass(body1, self.spec_world_r1(body1), normal);
        let w2 = spec_generalized_inverse_mass(body2, self.spec_world_r2(body2), normal);
        spec_lagrange_update(
            self.normal_lagrange,
            self.contact.penetration,
            w1,
            w2,
            self.compliance,
            dt,
        )
    }

    /// The constraint after the overlap was resolved along the normal.
    pub open spec fn spec_contact_solved(
        self,
        body1: RigidBody,
        body2: RigidBody,
        dt: Scalar,
    ) -> PenetrationConstraint {
        let lagrange = self.normal_lagrange.spec_plus(self.spec_normal_delta(body1, body2, dt));
        PenetrationConstraint {
            normal_lagrange: lagrange,
            normal_force: spec_force(lagrange, self.spec_normal(body1), dt),
            ..self
        }
    }

    /// The first body after the overlap was resolved along the normal.
    pub open spec fn spec_contact_body1(
        self,
        body1: RigidBody,
        body2: RigidBody,
        dt: Scalar,
    ) -> RigidBody {
        spec_corrected(
            body1,
            self.spec_normal(body1).spec_scale(self.spec_normal_delta(body1, body2, dt)),
            self.spec_world_r1(body1),
        )
    }

    /// The second body after the overlap was resolved along the normal.
    pub open spec fn spec_contact_body2(
        self,
        body1: RigidBody,
        body2: RigidBody,
        dt: Scalar,
    ) -> RigidBody {
        spec_corrected(
            body2,
            self.spec_normal(body1).spec_neg().spec_scale(
                self.spec_normal_delta(body1, body2, dt),
            ),
            self.spec_world_r2(body2),
        )
    }

    /// How far one body's contact point has moved since the step began.
    pub open spec fn spec_point_motion(body: RigidBody, point: Vector) -> Vector {
        body.position.spec_minus(body.previous_position).spec_plus(
            body.rotation.spec_rotate(point),
        ).spec_minus(body.previous_rotation.spec_rotate(point))
    }

    /// The motion of the first contact point relative to the second since the step
    /// began, without its part along the normal.
    pub open spec fn spec_sliding(self, body1: RigidBody, body2: RigidBody) -> Vector {
        let normal = self.spec_normal(body1);
        let delta_p = Self::spec_point_motion(body1, self.contact.point1).spec_minus(
            Self::spec_point_motion(body2, self.contact.point2),
        );
        delta_p.spec_minus(normal.spec_scale(delta_p.spec_dot(normal)))
    }

    /// The direction of sliding.
    pub open spec fn spec_tangent(self, body1: RigidBody, body2: RigidBody) -> Vector {
        let sliding = self.spec_sliding(body1, body2);
        sliding.spec_unscale(sliding.spec_length())
    }

    /// The static friction coefficient of the two surfaces together.
    pub open spec fn spec_static_coefficient(body1: RigidBody, body2: RigidBody) -> Scalar {
        body1.friction.spec_combine(body2.friction).static_coefficient
    }

    /// Whether static friction holds the contact: the points have slid by more
    /// than the tolerance, and by less than the static coefficient times the
    /// penetration depth.
    pub open spec fn spec_friction_holds(self, body1: RigidBody, body2: RigidBody) -> bool {
        let sliding_len = self.spec_sliding(body1, body2).spec_length();
        sliding_len@ > EPSILON_RAW && sliding_len@ < Self::spec_static_coefficient(
            body1,
            body2,
        ).spec_times(self.contact.penetration)@
    }

    /// The denominator of the tangential multiplier's increment.
    pub open spec fn spec_tangent_denominator(
        self,
        body1: RigidBody,
        body2: RigidBody,
        dt: Scalar,
    ) -> Scalar {
        let tangent = self.spec_tangent(body1, body2);
        spec_lagrange_denominator(
            spec_generalized_inverse_mass(body1, self.spec_world_r1(body1), tangent),
            spec_generalized_inverse_mass(body2, self.spec_world_r2(body2), tangent),
            self.compliance,
            dt,
        )
    }

    /// The increment of the tangential multiplier where static friction holds.
    pub open spec fn spec_tangent_delta(
        self,
        body1: RigidBody,
        body2: RigidBody,
        dt: Scalar,
    ) -> Scalar {
        let tangent = self.spec_tangent(body1, body2);
        let w1 = spec_generalized_inverse_mass(body1, self.spec_world_r1(body1), tangent);
        let w2 = spec_generalized_inverse_mass(body2, self.spec_world_r2(body2), tangent);
        spec_lagrange_update(
            self.tangent_lagrange,
            self.spec_sliding(body1, body2).spec_length(),
            w1,
            w2,
            self.compliance,
            dt,
        )
    }

    /// The constraint after static friction was applied, where it holds.
    pub open spec fn spec_friction_solved(
        self,
        body1: RigidBody,
        body2: RigidBody,
        dt: Scalar,
    ) -> PenetrationConstraint {
        if self.spec_friction_holds(body1, body2) {
            let lagrange = self.tangent_lagrange.spec_plus(
                self.spec_tangent_delta(body1, body2, dt),
            );
            PenetrationConstraint {
                tangent_lagrange: lagrange,
                static_friction_force: spec_force(lagrange, self.spec_tangent(body1, body2), dt),
                ..self
            }
        } else {
            self
        }
    }

    /// The first body after static friction was applied, where it holds.
    pub open spec fn spec_friction_body1(
        self,
        body1: RigidBody,
        body2: RigidBody,
        dt: Scalar,
    ) -> RigidBody {
        if self.spec_friction_holds(body1, body2) {
            spec_corrected(
                body1,
                self.spec_tangent(body1, body2).spec_scale(
                    self.spec_tangent_delta(body1, body2, dt),
                ),
                self.spec_world_r1(body1),
            )
        } else {
            body1
        }
    }

    /// The second body after static friction was applied, where it holds.
    pub open spec fn spec_friction_body2(
        self,
        body1: RigidBody,
        body2: RigidBody,
        dt: Scalar,
    ) -> RigidBody {
        if self.spec_friction_holds(body1, body2) {
            spec_corrected(
                body2,
                self.spec_tangent(body1, body2).spec_neg().spec_scale(
                    self.spec_tangent_delta(body1, body2, dt),
                ),
                self.spec_world_r2(body2),
            )
        } else {
            body2
        }
    }

    /// Whether the bodies overlap by more than the tolerance where they are now.
    pub open spec fn spec_overlaps(self, body1: RigidBody, body2: RigidBody) -> bool {
        self.spec_penetration(body1, body2)@ > EPSILON_RAW
    }

    /// The constraint after one call of `solve`: the depth measured anew, then, where
    /// the bodies overlap, the normal resolved and after it the friction.
    pub open spec fn spec_constraint_solved(
        self,
        body1: RigidBody,
        body2: RigidBody,
        dt: Scalar,
    ) -> PenetrationConstraint {
        let measured = self.spec_measured(body1, body2);
        if self.spec_overlaps(body1, body2) {
            measured.spec_contact_solved(body1, body2, dt).spec_friction_solved(
                measured.spec_contact_body1(body1, body2, dt),
                measured.spec_contact_body2(body1, body2, dt),
                dt,
            )
        } else {
            measured
        }
    }

    /// The first body after one call of `solve`.
    pub open spec fn spec_body1_solved(
        self,
        body1: RigidBody,
        body2: RigidBody,
        dt: Scalar,
    ) -> RigidBody {
        let measured = self.spec_measured(body1, body2);
        if self.spec_overlaps(body1, body2) {
            measured.spec_contact_solved(body1, body2, dt).spec_friction_body1(
                measured.spec_contact_body1(body1, body2, dt),
                measured.spec_contact_body2(body1, body2, dt),
                dt,
            )
        } else {
            body1
        }
    }

    /// The second body after one call of `solve`.
    pub open spec fn spec_body2_solved(
        self,
        body1: RigidBody,
        body2: RigidBody,
        dt: Scalar,
    ) -> RigidBody {
        let measured = self.spec_measured(body1, body2);
        if self.spec_overlaps(body1, body2) {
            measured.spec_contact_solved(body1, body2, dt).spec_friction_body2(
                measured.spec_contact_body1(body1, body2, dt),
                measured.spec_contact_body2(body1, body2, dt),
                dt,
            )
        } else {
            body2
        }
    }

    /// Creates a new [`PenetrationConstraint`] with the given bodies and contact data.
    pub fn new(body1: &RigidBody, body2: &RigidBody, contact: ContactData) -> (out:
        PenetrationConstraint)
        ensures
            out == (PenetrationConstraint {
                entity1: body1.entity,
                entity2: body2.entity,
                contact,
                r1: contact.point1.spec_minus(body1.center_of_mass),
                r2: contact.point2.spec_minus(body2.center_of_mass),
                normal_lagrange: Scalar::spec_zero(),
                tangent_lagrange: Scalar::spec_zero(),
                compliance: Scalar::spec_zero(),
                normal_force: Vector::spec_zero(),
                static_friction_force: Vector::spec_zero(),
            }),
    {
        let r1 = contact.point1.minus(body1.center_of_mass);
        let r2 = contact.point2.minus(body2.center_of_mass);

        PenetrationConstraint {
            entity1: body1.entity,
            entity2: body2.entity,
            contact,
            r1,
            r2,
            normal_lagrange: Scalar::zero(),
            tangent_lagrange: Scalar::zero(),
            compliance: Scalar::zero(),
            normal_force: Vector::zero(),
            static_friction_force: Vector::zero(),
        }
    }

    /// Measures the overlap of two bodies and, where they overlap, resolves it: first
    /// along the normal, then against sliding.
    pub fn solve_pair(&mut self, body1: &mut RigidBody, body2: &mut RigidBody, dt: Scalar)
        ensures
            *final(self) == old(self).spec_constraint_solved(*old(body1), *old(body2), dt),
            *final(body1) == old(self).spec_body1_solved(*old(body1), *old(body2), dt),
            *final(body2) == old(self).spec_body2_solved(*old(body1), *old(body2), dt),
    {
        let p1 = body1.position.plus(body1.rotation.rotate(self.contact.point1));
        let p2 = body2.position.plus(body2.rotation.rotate(self.contact.point2));
        self.contact.penetration = p1.minus(p2).dot(self.contact.global_normal1(body1.rotation));
        assert(*self == old(self).spec_measured(*old(body1), *old(body2)));

        // Bodies that do not overlap are left alone
        if self.contact.penetration.at_most(Scalar::epsilon()) {
            return;
        }
        self.solve_contact(body1, body2, dt);
        self.solve_friction(body1, body2, dt);
    }

    /// Solves a non-penetration constraint between two bodies.
    pub fn solve_contact(&mut self, body1: &mut RigidBody, body2: &mut RigidBody, dt: Scalar)
        ensures
            *final(self) == old(self).spec_contact_solved(*old(body1), *old(body2), dt),
            *final(body1) == old(self).spec_contact_body1(*old(body1), *old(body2), dt),
            *final(body2) == old(self).spec_contact_body2(*old(body1), *old(body2), dt),
    {
        // Shorter aliases
        let compliance = self.compliance;
        let lagrange = self.normal_lagrange;
        let penetration = self.contact.penetration;
        let normal = self.contact.global_normal1(body1.rotation);
        let r1 = body1.rotation.rotate(self.r1);
        let r2 = body2.rotation.rotate(self.r2);

        // Generalized inverse masses along the gradients `normal` and `-normal`
        let w1 = compute_generalized_inverse_mass(body1, r1, normal);
        let w2 = compute_generalized_inverse_mass(body2, r2, normal);

        let delta_lagrange = compute_lagrange_update(lagrange, penetration, w1, w2, compliance, dt);
        self.normal_lagrange = self.normal_lagrange.plus(delta_lagrange);

        // Apply positional correction to solve overlap
        apply_positional_correction(body1, body2, delta_lagrange, normal, r1, r2);

        // Update normal force using the equation f = lambda * n / h^2
        self.normal_force = compute_force(self.normal_lagrange, normal, dt);
    }

    /// Holds the contact points together against sliding, as far as static friction
    /// can. Once the points have slid further than static friction allows, nothing
    /// is corrected here.
    pub fn solve_friction(&mut self, body1: &mut RigidBody, body2: &mut RigidBody, dt: Scalar)
        ensures
            *final(self) == old(self).spec_friction_solved(*old(body1), *old(body2), dt),
            *final(body1) == old(self).spec_friction_body1(*old(body1), *old(body2), dt),
            *final(body2) == old(self).spec_friction_body2(*old(body1), *old(body2), dt),
    {
        // Shorter aliases
        let compliance = self.compliance;
        let lagrange = self.tangent_lagrange;
        let penetration = self.contact.penetration;
        let normal = self.contact.global_normal1(body1.rotation);
        let r1 = body1.rotation.rotate(self.r1);
        let r2 = body2.rotation.rotate(self.r2);

        // Relative motion of the contact points, and its tangential component
        let delta_p1 = body1.position.minus(body1.previous_position).plus(
            body1.rotation.rotate(self.contact.point1),
        ).minus(body1.previous_rotation.rotate(self.contact.point1));
        let delta_p2 = body2.position.minus(body2.previous_position).plus(
            body2.rotation.rotate(self.contact.point2),
        ).minus(body2.previous_rotation.rotate(self.contact.point2));
        let delta_p = delta_p1.minus(delta_p2);
        let delta_p_tangent = delta_p.minus(normal.scale(delta_p.dot(normal)));

        // Magnitude of relative tangential movement, and the normalized tangent vector
        let sliding_len = delta_p_tangent.length();
        if sliding_len.at_most(Scalar::epsilon()) {
            return;
        }
        let tangent = delta_p_tangent.unscale(sliding_len);

        // Generalized inverse masses along the gradients `tangent` and `-tangent`
        let w1 = compute_generalized_inverse_mass(body1, r1, tangent);
        let w2 = compute_generalized_inverse_mass(body2, r2, tangent);

        // Combined friction coefficient
        let static_coefficient = body1.friction.combine(body2.friction).static_coefficient;

        // Apply static friction if |delta_x_perp| < mu_s * d
        if sliding_len.less_than(static_coefficient.times(penetration)) {
            let delta_lagrange = compute_lagrange_update(
                lagrange,
                sliding_len,
                w1,
                w2,
                compliance,
                dt,
            );
            self.tangent_lagrange = self.tangent_lagrange.plus(delta_lagrange);

            // Apply positional correction to handle static friction
            apply_positional_correction(body1, body2, delta_lagrange, tangent, r1, r2);

            // Update static friction force using the equation f = lambda * n / h^2
            self.static_friction_force = compute_force(self.tangent_lagrange, tangent, dt);
        }
    }
}

impl XpbdConstraint<2> for PenetrationConstraint {
    open spec fn spec_entities(self) -> Seq<Entity> {
        seq![self.entity1, self.entity2]
    }

    open spec fn multipliers(self) -> Seq<Scalar> {
        seq![self.normal_lagrange, self.tangent_lagrange]
    }

    open spec fn spec_solved(self, bodies: Seq<RigidBody>, dt: Scalar) -> PenetrationConstraint {
        self.spec_constraint_solved(bodies[0], bodies[1], dt)
    }

    open spec fn spec_bodies_solved(self, bodies: Seq<RigidBody>, dt: Scalar) -> Seq<RigidBody> {
        seq![
            self.spec_body1_solved(bodies[0], bodies[1], dt),
            self.spec_body2_solved(bodies[0], bodies[1], dt),
        ]
    }

    fn entities(&self) -> (out: [Entity; 2]) {
        let out = [self.entity1, self.entity2];
        assert(out@ =~= self.spec_entities());
        out
    }

    fn clear_lagrange_multipliers(&mut self)
        ensures
            *final(self) == (PenetrationConstraint {
                normal_lagrange: Scalar::spec_zero(),
                tangent_lagrange: Scalar::spec_zero(),
                ..*old(self)
            }),
    {
        self.normal_lagrange = Scalar::zero();
        self.tangent_lagrange = Scalar::zero();
    }

    /// Solves overlap between two bodies.
    fn solve(&mut self, bodies: &mut [RigidBody; 2], dt: Scalar) {
        let mut body1 = bodies[0];
        let mut body2 = bodies[1];
        self.solve_pair(&mut body1, &mut body2, dt);
        *bodies = [body1, body2];
        assert(bodies@ =~= old(self).spec_bodies_solved(old(bodies)@, dt));
    }
}

/// The constraint and the two bodies after `n` calls of `solve` in a row.
pub open spec fn spec_solved_repeatedly(
    constraint: PenetrationConstraint,
    body1: RigidBody,
    body2: RigidBody,
    dt: Scalar,
    n: nat,
) -> (PenetrationConstraint, RigidBody, RigidBody)
    decreases n,
{
    if n == 0 {
        (constraint, body1, body2)
    } else {
        let (c, b1, b2) = spec_solved_repeatedly(constraint, body1, body2, dt, (n - 1) as nat);
        (
            c.spec_constraint_solved(b1, b2, dt),
            c.spec_body1_solved(b1, b2, dt),
            c.spec_body2_solved(b1, b2, dt),
        )
    }
}

/// Bodies that do not overlap are left alone: however often `solve` is called on
/// them, they never change, and neither do the multipliers or the forces. Only the
/// recorded depth is measured anew.
pub proof fn lemma_separated_bodies_stay(
    constraint: PenetrationConstraint,
    body1: RigidBody,
    body2: RigidBody,
    dt: Scalar,
    n: nat,
)
    requires
        !constraint.spec_overlaps(body1, body2),
        n >= 1,
    ensures
        spec_solved_repeatedly(constraint, body1, body2, dt, n) == (
            constraint.spec_measured(body1, body2),
            body1,
            body2,
        ),
    decreases n,
{
    let measured = constraint.spec_measured(body1, body2);
    assert(measured.spec_penetration(body1, body2) == constraint.spec_penetration(body1, body2));
    assert(measured.spec_measured(body1, body2) == measured);
    if n == 1 {
        assert(spec_solved_repeatedly(constraint, body1, body2, dt, 0) == (
            constraint,
            body1,
            body2,
        ));
    } else {
        lemma_separated_bodies_stay(constraint, body1, body2, dt, (n - 1) as nat);
    }
}

/// The friction threshold: once the contact points have slid further than the static
/// coefficient times the penetration depth, or exactly that far, the friction stage
/// corrects nothing. The bodies, the tangential multiplier and the static friction
/// force stay as they were.
pub proof fn lemma_no_friction_beyond_threshold(
    constraint: PenetrationConstraint,
    body1: RigidBody,
    body2: RigidBody,
    dt: Scalar,
)
    requires
        constraint.spec_sliding(body1, body2).spec_length()@
            >= PenetrationConstraint::spec_static_coefficient(body1, body2).spec_times(
            constraint.contact.penetration,
        )@,
    ensures
        constraint.spec_friction_solved(body1, body2, dt) == constraint,
        constraint.spec_friction_body1(body1, body2, dt) == body1,
        constraint.spec_friction_body2(body1, body2, dt) == body2,
{
}

/// Below the friction threshold the friction stage adds its increment to the
/// tangential multiplier and records a static friction force along the direction of
/// sliding: that direction scaled by the new multiplier over `dt²`.
pub proof fn lemma_static_friction_along_sliding(
    constraint: PenetrationConstraint,
    body1: RigidBody,
    body2: RigidBody,
    dt: Scalar,
)
    requires
        constraint.spec_friction_holds(body1, body2),
    ensures
        ({
            let solved = constraint.spec_friction_solved(body1, body2, dt);
            let tangent = constraint.spec_tangent(body1, body2);
            &&& solved.tangent_lagrange == constraint.tangent_lagrange.spec_plus(
                constraint.spec_tangent_delta(body1, body2, dt),
            )
            &&& solved.static_friction_force == tangent.spec_scale(
                solved.tangent_lagrange,
            ).spec_unscale(dt.spec_times(dt))
            &&& solved.normal_force == constraint.normal_force
            &&& solved.normal_lagrange == constraint.normal_lagrange
        }),
{
}

/// Below the friction threshold a correction is applied: with the tangential
/// multiplier at zero, as it is when a step begins, and a denominator of the
/// increment that is above the tolerance and not so large that the increment rounds
/// to zero, the friction stage leaves a tangential multiplier below zero.
pub proof fn lemma_static_friction_corrects(
    constraint: PenetrationConstraint,
    body1: RigidBody,
    body2: RigidBody,
    dt: Scalar,
)
    requires
        constraint.spec_friction_holds(body1, body2),
        constraint.tangent_lagrange == Scalar::spec_zero(),
        constraint.spec_tangent_denominator(body1, body2, dt)@ > EPSILON_RAW,
        constraint.spec_tangent_denominator(body1, body2, dt)@ <= constraint.spec_sliding(
            body1,
            body2,
        ).spec_length()@ * ONE_RAW,
    ensures
        constraint.spec_tangent_delta(body1, body2, dt)@ < 0,
        constraint.spec_friction_solved(body1, body2, dt).tangent_lagrange@ < 0,
{
    let tangent = constraint.spec_tangent(body1, body2);
    let w1 = spec_generalized_inverse_mass(body1, constraint.spec_world_r1(body1), tangent);
    let w2 = spec_generalized_inverse_mass(body2, constraint.spec_world_r2(body2), tangent);
    lemma_first_increment_opposes_violation(
        constraint.spec_sliding(body1, body2).spec_length(),
        w1,
        w2,
        constraint.compliance,
        dt,
    );
}

/// A body that cannot be moved or turned is left as it is by `solve`, whichever side
/// of the contact it is on.
pub proof fn lemma_immovable_body_unchanged(
    constraint: PenetrationConstraint,
    body1: RigidBody,
    body2: RigidBody,
    dt: Scalar,
)
    ensures
        body1.is_immovable() ==> constraint.spec_body1_solved(body1, body2, dt) == body1,
        body2.is_immovable() ==> constraint.spec_body2_solved(body1, body2, dt) == body2,
{
    let measured = constraint.spec_measured(body1, body2);
    let pushed = measured.spec_contact_solved(body1, body2, dt);
    let b1 = measured.spec_contact_body1(body1, body2, dt);
    let b2 = measured.spec_contact_body2(body1, body2, dt);
    let normal = measured.spec_normal(body1);
    let tangent = pushed.spec_tangent(b1, b2);
    if body1.is_immovable() {
        lemma_immovable_uncorrected(
            body1,
            normal.spec_scale(measured.spec_normal_delta(body1, body2, dt)),
            measured.spec_world_r1(body1),
        );
        lemma_immovable_uncorrected(
            body1,
            tangent.spec_scale(pushed.spec_tangent_delta(b1, b2, dt)),
            pushed.spec_world_r1(body1),
        );
    }
    if body2.is_immovable() {
        lemma_immovable_uncorrected(
            body2,
            normal.spec_neg().spec_scale(measured.spec_normal_delta(body1, body2, dt)),
            measured.spec_world_r2(body2),
        );
        lemma_immovable_uncorrected(
            body2,
            tangent.spec_neg().spec_scale(pushed.spec_tangent_delta(b1, b2, dt)),
            pushed.spec_world_r2(body2),
        );
    }
}

} // verus!
