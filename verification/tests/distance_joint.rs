use bevy::ecs::entity::Entity;
use xpbd_constraints::body::RigidBody;
use xpbd_constraints::constraints::joints::distance::DistanceJoint;
use xpbd_constraints::constraints::joints::{DistanceLimit, Joint};
use xpbd_constraints::constraints::XpbdConstraint;
use xpbd_constraints::matrix::Matrix3;
use xpbd_constraints::quaternion::Quaternion;
use xpbd_constraints::scalar::Scalar;
use xpbd_constraints::vector::Vector;

fn s(x: f64) -> Scalar {
    Scalar { raw: (x * 4294967296.0) as i64 }
}

fn v(x: f64, y: f64, z: f64) -> Vector {
    Vector { x: s(x), y: s(y), z: s(z) }
}

fn as_float(x: Scalar) -> f64 {
    x.raw as f64 / 4294967296.0
}

fn point_mass(id: u32, position: Vector, inverse_mass: f64) -> RigidBody {
    RigidBody::new(Entity::from_raw(id), position, s(inverse_mass), Matrix3::zero())
}

fn ball(id: u32, position: Vector, inverse_mass: f64, inverse_inertia: f64) -> RigidBody {
    RigidBody::new(
        Entity::from_raw(id),
        position,
        s(inverse_mass),
        Matrix3::from_diagonal(v(inverse_inertia, inverse_inertia, inverse_inertia)),
    )
}

fn joint() -> DistanceJoint {
    DistanceJoint::new(Entity::from_raw(1), Entity::from_raw(2))
}

fn anchor_distance(joint: &DistanceJoint, bodies: &[RigidBody; 2]) -> f64 {
    let p1 = bodies[0].position.plus(bodies[0].rotation.rotate(joint.local_anchor1));
    let p2 = bodies[1].position.plus(bodies[1].rotation.rotate(joint.local_anchor2));
    as_float(p1.minus(p2).length())
}

#[test]
fn new_joint_has_every_setting_at_zero() {
    let j = joint();
    assert_eq!(j.entity1, Entity::from_raw(1));
    assert_eq!(j.entity2, Entity::from_raw(2));
    assert_eq!(j.local_anchor1, Vector::zero());
    assert_eq!(j.local_anchor2, Vector::zero());
    assert_eq!(j.rest_length, Scalar::zero());
    assert_eq!(j.length_limits, None);
    assert_eq!(j.damping_linear, Scalar::zero());
    assert_eq!(j.damping_angular, Scalar::zero());
    assert_eq!(j.lagrange, Scalar::zero());
    assert_eq!(j.compliance, Scalar::zero());
    assert_eq!(j.force, Vector::zero());
}

#[test]
fn builders_set_one_field_each() {
    let base = joint();
    assert_eq!(base.with_compliance(s(0.5)), DistanceJoint { compliance: s(0.5), ..base });
    assert_eq!(
        base.with_local_anchor_1(v(1.0, 2.0, 3.0)),
        DistanceJoint { local_anchor1: v(1.0, 2.0, 3.0), ..base }
    );
    assert_eq!(
        base.with_local_anchor_2(v(1.0, 2.0, 3.0)),
        DistanceJoint { local_anchor2: v(1.0, 2.0, 3.0), ..base }
    );
    assert_eq!(
        base.with_linear_velocity_damping(s(0.25)),
        DistanceJoint { damping_linear: s(0.25), ..base }
    );
    assert_eq!(
        base.with_angular_velocity_damping(s(0.75)),
        DistanceJoint { damping_angular: s(0.75), ..base }
    );
    assert_eq!(base.with_rest_length(s(2.0)), DistanceJoint { rest_length: s(2.0), ..base });
    assert_eq!(
        base.with_limits(s(1.0), s(3.0)),
        DistanceJoint { length_limits: Some(DistanceLimit { min: s(1.0), max: s(3.0) }), ..base }
    );
}

#[test]
fn accessors_read_back_what_the_builders_set() {
    let j = joint()
        .with_local_anchor_1(v(1.0, 0.0, 0.0))
        .with_local_anchor_2(v(0.0, 1.0, 0.0))
        .with_linear_velocity_damping(s(0.25))
        .with_angular_velocity_damping(s(0.75))
        .with_compliance(s(0.5));
    assert_eq!(j.local_anchor_1(), v(1.0, 0.0, 0.0));
    assert_eq!(j.local_anchor_2(), v(0.0, 1.0, 0.0));
    assert_eq!(j.damping_linear(), s(0.25));
    assert_eq!(j.damping_angular(), s(0.75));
    assert_eq!(j.compliance, s(0.5));
}

#[test]
fn entities_come_in_order() {
    let j = DistanceJoint::new(Entity::from_raw(9), Entity::from_raw(4));
    assert_eq!(j.entities(), [Entity::from_raw(9), Entity::from_raw(4)]);
}

#[test]
fn clear_resets_the_multiplier_only() {
    let mut j = joint().with_rest_length(s(1.0)).with_compliance(s(0.5));
    j.lagrange = s(-3.5);
    j.force = v(1.0, 2.0, 3.0);
    let before = j;
    j.clear_lagrange_multipliers();
    assert_eq!(j, DistanceJoint { lagrange: Scalar::zero(), ..before });
}

#[test]
fn solve_pulls_two_point_masses_to_the_rest_length() {
    let mut j = joint().with_rest_length(s(1.0));
    let mut bodies = [point_mass(1, v(2.0, 0.0, 0.0), 1.0), point_mass(2, Vector::zero(), 1.0)];
    j.solve(&mut bodies, s(1.0));
    assert_eq!(bodies[0].position, v(1.5, 0.0, 0.0));
    assert_eq!(bodies[1].position, v(0.5, 0.0, 0.0));
    assert_eq!(bodies[0].rotation, Quaternion::identity());
    assert_eq!(bodies[1].rotation, Quaternion::identity());
    assert_eq!(j.lagrange, s(-0.5));
    assert_eq!(j.force, v(-0.5, 0.0, 0.0));
}

#[test]
fn solve_pushes_two_point_masses_apart_to_the_rest_length() {
    let mut j = joint().with_rest_length(s(3.0));
    let mut bodies = [point_mass(1, v(0.0, 1.0, 0.0), 1.0), point_mass(2, Vector::zero(), 3.0)];
    j.solve(&mut bodies, s(0.5));
    assert_eq!(bodies[0].position, v(0.0, 1.5, 0.0));
    assert_eq!(bodies[1].position, v(0.0, -1.5, 0.0));
    assert_eq!(j.lagrange, s(0.5));
    assert_eq!(j.force, v(0.0, 2.0, 0.0));
}

#[test]
fn solve_at_rest_length_changes_nothing() {
    let mut j = joint().with_rest_length(s(2.0));
    j.lagrange = s(-0.25);
    j.force = v(9.0, 9.0, 9.0);
    let mut bodies =
        [ball(1, v(2.0, 0.0, 0.0), 1.0, 1.0), ball(2, Vector::zero(), 1.0, 1.0)];
    let before = bodies;
    j.solve(&mut bodies, s(1.0));
    assert_eq!(bodies[0].position, before[0].position);
    assert_eq!(bodies[0].rotation, before[0].rotation);
    assert_eq!(bodies[1].position, before[1].position);
    assert_eq!(bodies[1].rotation, before[1].rotation);
    assert_eq!(j.force, Vector::zero());
    assert_eq!(j.lagrange, s(-0.25));
}

#[test]
fn solve_converges_to_the_rest_length() {
    let mut j = joint()
        .with_rest_length(s(1.0))
        .with_local_anchor_1(v(0.5, 0.0, 0.0))
        .with_local_anchor_2(v(0.0, 0.5, 0.0));
    let mut bodies =
        [ball(1, v(3.0, 1.0, 0.0), 1.0, 1.0), ball(2, v(0.0, 0.0, 0.5), 0.5, 2.0)];
    assert!((anchor_distance(&j, &bodies) - 1.0).abs() > 1.0);
    for _ in 0..20 {
        j.solve(&mut bodies, s(0.25));
    }
    assert!((anchor_distance(&j, &bodies) - 1.0).abs() < 1e-3);
    let l1 = as_float(bodies[0].rotation.length());
    let l2 = as_float(bodies[1].rotation.length());
    assert!((l1 - 1.0).abs() < 1e-6);
    assert!((l2 - 1.0).abs() < 1e-6);
}

#[test]
fn solve_leaves_a_body_of_infinite_mass() {
    let mut j = joint().with_rest_length(s(1.0));
    let mut bodies = [point_mass(1, v(2.0, 0.0, 0.0), 0.0), ball(2, Vector::zero(), 1.0, 1.0)];
    let before = bodies;
    j.solve(&mut bodies, s(1.0));
    assert_eq!(bodies[0].position, before[0].position);
    assert_eq!(bodies[0].rotation, before[0].rotation);
    assert_eq!(bodies[1].position, v(1.0, 0.0, 0.0));
    assert_eq!(j.lagrange, s(-1.0));

    let mut j = joint().with_rest_length(s(1.0));
    let mut bodies = [ball(1, v(2.0, 0.0, 0.0), 1.0, 1.0), point_mass(2, Vector::zero(), 0.0)];
    j.solve(&mut bodies, s(1.0));
    assert_eq!(bodies[1].position, Vector::zero());
    assert_eq!(bodies[1].rotation, Quaternion::identity());
    assert_eq!(bodies[0].position, v(1.0, 0.0, 0.0));
}

#[test]
fn solve_between_two_immovable_bodies_changes_nothing() {
    let mut j = joint().with_rest_length(s(1.0));
    let mut bodies = [point_mass(1, v(2.0, 0.0, 0.0), 0.0), point_mass(2, Vector::zero(), 0.0)];
    j.solve(&mut bodies, s(1.0));
    assert_eq!(bodies[0].position, v(2.0, 0.0, 0.0));
    assert_eq!(bodies[1].position, Vector::zero());
    assert_eq!(j.lagrange, Scalar::zero());
    assert_eq!(j.force, Vector::zero());
}

#[test]
fn compliance_makes_the_correction_smaller() {
    let mut moved = Vec::new();
    for compliance in [0.0, 0.5, 2.0] {
        let mut j = joint().with_rest_length(s(1.0)).with_compliance(s(compliance));
        let mut bodies =
            [point_mass(1, v(2.0, 0.0, 0.0), 1.0), point_mass(2, Vector::zero(), 1.0)];
        j.solve(&mut bodies, s(1.0));
        moved.push(s(2.0).minus(bodies[0].position.x));
    }
    assert_eq!(moved[0], s(0.5));
    assert_eq!(moved[1], s(0.4));
    assert_eq!(moved[2], s(0.25));
    assert!(moved[2].less_than(moved[1]) && moved[1].less_than(moved[0]));
}

#[test]
fn solve_on_coincident_anchors_never_changes_anything() {
    let mut j = joint().with_rest_length(s(1.0));
    j.lagrange = s(0.75);
    let mut bodies =
        [ball(1, v(1.0, 1.0, 1.0), 1.0, 1.0), ball(2, v(1.0, 1.0, 1.0), 1.0, 1.0)];
    let before = bodies;
    for _ in 0..5 {
        j.force = v(1.0, 1.0, 1.0);
        j.solve(&mut bodies, s(0.5));
        assert_eq!(j.force, Vector::zero());
        assert_eq!(j.lagrange, s(0.75));
        assert_eq!(bodies[0].position, before[0].position);
        assert_eq!(bodies[0].rotation, before[0].rotation);
        assert_eq!(bodies[1].position, before[1].position);
        assert_eq!(bodies[1].rotation, before[1].rotation);
    }
}

#[test]
fn solve_within_the_tolerance_of_the_rest_length_changes_nothing() {
    let mut j = joint().with_rest_length(s(2.0));
    let off = Vector { x: Scalar { raw: (2i64 << 32) + 511 }, y: s(0.0), z: s(0.0) };
    let mut bodies = [point_mass(1, off, 1.0), point_mass(2, Vector::zero(), 1.0)];
    for _ in 0..3 {
        j.solve(&mut bodies, s(1.0));
        assert_eq!(bodies[0].position, off);
        assert_eq!(bodies[1].position, Vector::zero());
        assert_eq!(j.force, Vector::zero());
    }
    let off = Vector { x: Scalar { raw: (2i64 << 32) + 512 }, y: s(0.0), z: s(0.0) };
    let mut bodies = [point_mass(1, off, 1.0), point_mass(2, Vector::zero(), 1.0)];
    j.solve(&mut bodies, s(1.0));
    assert_eq!(bodies[0].position.x.raw, (2i64 << 32) + 256);
    assert_eq!(bodies[1].position.x.raw, 256);
}

#[test]
fn solve_uses_the_anchors_in_world_space() {
    let mut j = joint()
        .with_rest_length(s(1.0))
        .with_local_anchor_1(v(1.0, 0.0, 0.0))
        .with_local_anchor_2(v(-1.0, 0.0, 0.0));
    let mut first = point_mass(1, v(2.0, 0.0, 0.0), 1.0);
    first.rotation = Quaternion { x: s(0.0), y: s(0.0), z: s(1.0), w: s(0.0) };
    let mut bodies = [first, point_mass(2, Vector::zero(), 1.0)];
    // The anchors are at (1, 0, 0) and (-1, 0, 0): two apart.
    j.solve(&mut bodies, s(1.0));
    assert_eq!(bodies[0].position, v(1.5, 0.0, 0.0));
    assert_eq!(bodies[1].position, v(0.5, 0.0, 0.0));
}

#[test]
fn solve_with_limits_adds_their_correction_to_the_separation() {
    let mut j = joint().with_rest_length(s(1.0)).with_limits(s(1.0), s(2.0));
    let mut bodies = [point_mass(1, v(4.0, 0.0, 0.0), 1.0), point_mass(2, Vector::zero(), 1.0)];
    // Separation (4, 0, 0); the limits add (2, 0, 0); the violation is 6 - 1 = 5.
    j.solve(&mut bodies, s(1.0));
    assert_eq!(j.lagrange, s(-2.5));
    assert_eq!(bodies[0].position, v(1.5, 0.0, 0.0));
    assert_eq!(bodies[1].position, v(2.5, 0.0, 0.0));
    assert_eq!(j.force, v(-2.5, 0.0, 0.0));
}

#[test]
fn solve_with_limits_inside_the_range_holds_the_rest_length() {
    let mut j = joint().with_rest_length(s(1.0)).with_limits(s(0.5), s(4.0));
    let mut bodies = [point_mass(1, v(2.0, 0.0, 0.0), 1.0), point_mass(2, Vector::zero(), 1.0)];
    j.solve(&mut bodies, s(1.0));
    assert_eq!(bodies[0].position, v(1.5, 0.0, 0.0));
    assert_eq!(bodies[1].position, v(0.5, 0.0, 0.0));
}

#[test]
fn multiplier_accumulates_over_substeps() {
    let mut j = joint().with_rest_length(s(1.0)).with_compliance(s(1.0));
    let mut bodies = [point_mass(1, v(2.0, 0.0, 0.0), 1.0), point_mass(2, Vector::zero(), 1.0)];
    j.solve(&mut bodies, s(1.0));
    let first = j.lagrange;
    assert_eq!(first.raw, -1431655765);
    // The violation left over is balanced by the compliance: nothing more to add.
    j.solve(&mut bodies, s(1.0));
    assert!(j.lagrange.minus(first).abs().raw <= 4);
    j.clear_lagrange_multipliers();
    assert_eq!(j.lagrange, Scalar::zero());
}
