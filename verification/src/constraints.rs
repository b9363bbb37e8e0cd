//! Position-based constraints between bodies, and the arithmetic they share.
//!
//! A constraint is satisfied where its value `C` is zero. One call of `solve` moves
//! and turns the bodies along the constraint's gradient by a signed amount, the
//! increment of the Lagrange multiplier, which the bodies share in proportion to
//! how freely each can move.

pub mod joints;
pub mod penetration;

use crate::body::RigidBody;
use crate::matrix::{lemma_zero_matrix_apply, Matrix3};
use crate::quaternion::Quaternion;
use crate::scalar::{magnitude, Scalar, EPSILON_RAW, ONE_RAW};
use crate::vector::{lemma_plus_zero, lemma_scale_by_zero, Vector};
use bevy::ecs::entity::Entity;
use vstd::arithmetic::div_mod::{
    lemma_div_basics, lemma_div_is_ordered, lemma_div_is_ordered_by_denominator,
};
use vstd::prelude::*;

verus! {

/// What the solver loop asks of every constraint on `N` bodies.
pub trait XpbdConstraint<const N: usize>: Sized {
    /// The bodies that the constraint acts on, in the order that fixes the sign of
    /// its gradients.
    spec fn spec_entities(self) -> Seq<Entity>;

    /// The accumulated Lagrange multipliers.
    spec fn multipliers(self) -> Seq<Scalar>;

    /// The constraint as one call of `solve` leaves it.
    spec fn spec_solved(self, bodies: Seq<RigidBody>, dt: Scalar) -> Self;

    /// The bodies as one call of `solve` leaves them.
    spec fn spec_bodies_solved(self, bodies: Seq<RigidBody>, dt: Scalar) -> Seq<RigidBody>;

    fn entities(&self) -> (out: [Entity; N])
        ensures
            out@ == self.spec_entities(),
    ;

    /// Sets every multiplier to zero, as each simulation step must before its first
    /// call of `solve`.
    fn clear_lagrange_multipliers(&mut self)
        ensures
            final(self).multipliers().len() == old(self).multipliers().len(),
            forall|i: int|
                0 <= i < final(self).multipliers().len() ==> #[trigger] final(self).multipliers()[i]
                    == Scalar::spec_zero(),
            final(self).spec_entities() == old(self).spec_entities(),
    ;

    /// Corrects the bodies' positions and rotations toward the constraint and
    /// accumulates the multipliers, for a substep of length `dt`.
    fn solve(&mut self, bodies: &mut [RigidBody; N], dt: Scalar)
        ensures
            *final(self) == old(self).spec_solved(old(bodies)@, dt),
            final(bodies)@ == old(self).spec_bodies_solved(old(bodies)@, dt),
    ;
}

/// How little a body resists a correction along `n` applied at the offset `r` from
/// its center of mass: `invMass + (invInertia (r × n)) · (r × n)`.
pub open spec fn spec_generalized_inverse_mass(body: RigidBody, r: Vector, n: Vector) -> Scalar {
    let r_cross_n = r.spec_cross(n);
    body.inverse_mass.spec_plus(body.inverse_inertia.spec_apply(r_cross_n).spec_dot(r_cross_n))
}

/// The compliance scaled to the substep: `compliance / dt²`.
pub open spec fn spec_tilde_compliance(compliance: Scalar, dt: Scalar) -> Scalar {
    compliance.spec_over(dt.spec_times(dt))
}

/// The denominator of the multiplier's increment: `w1 + w2 + compliance / dt²`.
pub open spec fn spec_lagrange_denominator(
    w1: Scalar,
    w2: Scalar,
    compliance: Scalar,
    dt: Scalar,
) -> Scalar {
    w1.spec_plus(w2).spec_plus(spec_tilde_compliance(compliance, dt))
}

/// The increment of a Lagrange multiplier:
/// `(−c − (compliance / dt²) lagrange) / (w1 + w2 + compliance / dt²)`,
/// or zero where the denominator does not exceed the tolerance.
pub open spec fn spec_lagrange_update(
    lagrange: Scalar,
    c: Scalar,
    w1: Scalar,
    w2: Scalar,
    compliance: Scalar,
    dt: Scalar,
) -> Scalar {
    let tilde = spec_tilde_compliance(compliance, dt);
    let denominator = spec_lagrange_denominator(w1, w2, compliance, dt);
    if denominator@ <= EPSILON_RAW {
        Scalar::spec_zero()
    } else {
        c.spec_neg().spec_minus(tilde.spec_times(lagrange)).spec_over(denominator)
    }
}

/// The turn that the impulse `p`, applied at the offset `r`, asks of a body.
pub open spec fn spec_angular_increment(inverse_inertia: Matrix3, r: Vector, p: Vector) -> Vector {
    inverse_inertia.spec_apply(r.spec_cross(p))
}

/// A rotation after the impulse `p` applied at the offset `r`: the rotation plus
/// half the angular increment times the rotation, brought back to unit length. A
/// zero increment leaves the rotation as it is.
pub open spec fn spec_rotation_after(
    rotation: Quaternion,
    inverse_inertia: Matrix3,
    r: Vector,
    p: Vector,
) -> Quaternion {
    let omega = spec_angular_increment(inverse_inertia, r, p);
    if omega == Vector::spec_zero() {
        rotation
    } else {
        rotation.spec_plus(
            Quaternion::spec_from_vector(omega.spec_scale(Scalar::spec_half())).spec_times(
                rotation,
            ),
        ).spec_normalize()
    }
}

/// A body after the impulse `p` applied at the offset `r`: moved by `invMass p` and
/// turned as `spec_rotation_after` says.
pub open spec fn spec_corrected(body: RigidBody, p: Vector, r: Vector) -> RigidBody {
    RigidBody {
        position: body.position.spec_plus(p.spec_scale(body.inverse_mass)),
        rotation: spec_rotation_after(body.rotation, body.inverse_inertia, r, p),
        ..body
    }
}

/// The force that a multiplier stands for: `lagrange direction / dt²`.
pub open spec fn spec_force(lagrange: Scalar, direction: Vector, dt: Scalar) -> Vector {
    direction.spec_scale(lagrange).spec_unscale(dt.spec_times(dt))
}

pub fn compute_generalized_inverse_mass(body: &RigidBody, r: Vector, n: Vector) -> (out: Scalar)
    ensures
        out == spec_generalized_inverse_mass(*body, r, n),
{
    let r_cross_n = r.cross(n);
    body.inverse_mass.plus(body.inverse_inertia.apply(r_cross_n).dot(r_cross_n))
}

pub fn compute_lagrange_update(
    lagrange: Scalar,
    c: Scalar,
    w1: Scalar,
    w2: Scalar,
    compliance: Scalar,
    dt: Scalar,
) -> (out: Scalar)
    ensures
        out == spec_lagrange_update(lagrange, c, w1, w2, compliance, dt),
{
    let tilde = compliance.over(dt.times(dt));
    let denominator = w1.plus(w2).plus(tilde);
    if denominator.at_most(Scalar::epsilon()) {
        Scalar::zero()
    } else {
        c.neg().minus(tilde.times(lagrange)).over(denominator)
    }
}

/// Moves and turns one body by the impulse `p` applied at the offset `r`.
pub fn correct_body(body: &mut RigidBody, p: Vector, r: Vector)
    ensures
        *final(body) == spec_corrected(*old(body), p, r),
{
    body.position = body.position.plus(p.scale(body.inverse_mass));
    let omega = body.inverse_inertia.apply(r.cross(p));
    if !omega.is_zero() {
        let turn = Quaternion::from_vector(omega.scale(Scalar::half())).times(body.rotation);
        body.rotation = body.rotation.plus(turn).normalize();
    }
}

/// Applies the increment `delta_lagrange` along `direction`: the first body receives
/// the impulse `direction * delta_lagrange` at `r1`, the second the opposite
/// direction's at `r2`.
pub fn apply_positional_correction(
    body1: &mut RigidBody,
    body2: &mut RigidBody,
    delta_lagrange: Scalar,
    direction: Vector,
    r1: Vector,
    r2: Vector,
)
    ensures
        *final(body1) == spec_corrected(*old(body1), direction.spec_scale(delta_lagrange), r1),
        *final(body2) == spec_corrected(
            *old(body2),
            direction.spec_neg().spec_scale(delta_lagrange),
            r2,
        ),
{
    correct_body(body1, direction.scale(delta_lagrange), r1);
    correct_body(body2, direction.neg().scale(delta_lagrange), r2);
}

pub fn compute_force(lagrange: Scalar, direction: Vector, dt: Scalar) -> (out: Vector)
    ensures
        out == spec_force(lagrange, direction, dt),
{
    direction.scale(lagrange).unscale(dt.times(dt))
}

/// A body that cannot be moved or turned comes out of every correction as it went
/// in.
pub proof fn lemma_immovable_uncorrected(body: RigidBody, p: Vector, r: Vector)
    requires
        body.is_immovable(),
    ensures
        spec_corrected(body, p, r) == body,
{
    lemma_scale_by_zero(p);
    lemma_plus_zero(body.position);
    lemma_zero_matrix_apply(r.spec_cross(p));
}

/// Compliance softens the correction: for the same violation `c`, with the
/// multiplier at zero as it is when a step begins, a larger compliance never makes
/// the multiplier's increment, by which the correction of every body is scaled,
/// larger in magnitude.
pub proof fn lemma_compliance_softens(
    c: Scalar,
    w1: Scalar,
    w2: Scalar,
    stiffer: Scalar,
    softer: Scalar,
    dt: Scalar,
)
    requires
        0 <= stiffer@ <= softer@,
        dt.spec_times(dt)@ > 0,
        spec_lagrange_denominator(w1, w2, stiffer, dt)@ > EPSILON_RAW,
    ensures
        spec_lagrange_update(Scalar::spec_zero(), c, w1, w2, softer, dt).spec_abs()@
            <= spec_lagrange_update(Scalar::spec_zero(), c, w1, w2, stiffer, dt).spec_abs()@,
{
    let d = dt.spec_times(dt)@;
    let one = ONE_RAW as int;
    let t1 = spec_tilde_compliance(stiffer, dt);
    let t2 = spec_tilde_compliance(softer, dt);
    assert(0 <= stiffer@ * one <= softer@ * one) by (nonlinear_arith)
        requires
            0 <= stiffer@ <= softer@,
            one > 0,
    ;
    lemma_div_is_ordered(stiffer@ * one, softer@ * one, d);
    assert(0 <= (stiffer@ * one) / d) by {
        lemma_div_is_ordered(0, stiffer@ * one, d);
    }
    assert(t1@ <= t2@);
    let den1 = spec_lagrange_denominator(w1, w2, stiffer, dt);
    let den2 = spec_lagrange_denominator(w1, w2, softer, dt);
    assert(den1@ <= den2@);
    assert(t1@ * 0 == 0 && t2@ * 0 == 0);
    let m = c.spec_neg();
    assert(m.spec_minus(t1.spec_times(Scalar::spec_zero())) == m);
    assert(m.spec_minus(t2.spec_times(Scalar::spec_zero())) == m);
    let big = magnitude(m@ * one);
    lemma_div_is_ordered_by_denominator(big, den1@, den2@);
    assert(0 <= big / den2@) by {
        lemma_div_is_ordered(0, big, den2@);
    }
}

/// The first increment opposes the violation: with the multiplier at zero, a
/// denominator above the tolerance, and a violation `c` that is not so small
/// against the denominator that their quotient rounds to zero, the increment is not
/// zero and has the sign opposite to `c`.
pub proof fn lemma_first_increment_opposes_violation(
    c: Scalar,
    w1: Scalar,
    w2: Scalar,
    compliance: Scalar,
    dt: Scalar,
)
    requires
        c@ != 0,
        spec_lagrange_denominator(w1, w2, compliance, dt)@ > EPSILON_RAW,
        spec_lagrange_denominator(w1, w2, compliance, dt)@ <= magnitude(c@) * ONE_RAW,
    ensures
        c@ > 0 ==> spec_lagrange_update(Scalar::spec_zero(), c, w1, w2, compliance, dt)@ < 0,
        c@ < 0 ==> spec_lagrange_update(Scalar::spec_zero(), c, w1, w2, compliance, dt)@ > 0,
{
    let one = ONE_RAW as int;
    let tilde = spec_tilde_compliance(compliance, dt);
    let den = spec_lagrange_denominator(w1, w2, compliance, dt)@;
    assert(tilde@ * 0 == 0);
    let m = c.spec_neg();
    assert(m.spec_minus(tilde.spec_times(Scalar::spec_zero())) == m);
    let big = magnitude(m@ * one);
    assert(big == magnitude(m@) * one) by (nonlinear_arith)
        requires
            one > 0,
            big == magnitude(m@ * one),
    ;
    assert(big >= den);
    lemma_div_is_ordered(den, big, den);
    assert(den / den == 1) by {
        lemma_div_basics(den);
    }
    assert(big / den >= 1);
    assert((m@ * one < 0) == (m@ < 0)) by (nonlinear_arith)
        requires
            one > 0,
    ;
}

} // verus!
