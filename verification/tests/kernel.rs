use bevy::ecs::entity::Entity;
use xpbd_constraints::body::RigidBody;
use xpbd_constraints::constraints::{
    apply_positional_correction, compute_force, compute_generalized_inverse_mass,
    compute_lagrange_update, correct_body,
};
use xpbd_constraints::matrix::Matrix3;
use xpbd_constraints::quaternion::Quaternion;
use xpbd_constraints::scalar::Scalar;
use xpbd_constraints::vector::Vector;

fn s(x: f64) -> Scalar {
    Scalar { raw: (x * 4294967296.0) as i64 }
}

fn v(x: f64, y: f64, z: f64) -> Vector {
    Vector { x: s(x), y: s(y), z: s(z) }
}

fn point_mass(id: u32, position: Vector, inverse_mass: f64) -> RigidBody {
    RigidBody::new(Entity::from_raw(id), position, s(inverse_mass), Matrix3::zero())
}

fn ball(id: u32, position: Vector, inverse_mass: f64, inverse_inertia: f64) -> RigidBody {
    RigidBody::new(
        Entity::from_raw(id),
        position,
        s(inverse_mass),
        Matrix3::from_diagonal(v(inverse_inertia, inverse_inertia, inverse_inertia)),
    )
}

#[test]
fn rigid_body_new_starts_at_rest() {
    let body = ball(3, v(1.0, 2.0, 3.0), 0.5, 2.0);
    assert_eq!(body.entity, Entity::from_raw(3));
    assert_eq!(body.position, v(1.0, 2.0, 3.0));
    assert_eq!(body.previous_position, v(1.0, 2.0, 3.0));
    assert_eq!(body.rotation, Quaternion::identity());
    assert_eq!(body.previous_rotation, Quaternion::identity());
    assert_eq!(body.inverse_mass, s(0.5));
    assert_eq!(body.inverse_inertia, Matrix3::from_diagonal(v(2.0, 2.0, 2.0)));
    assert_eq!(body.center_of_mass, Vector::zero());
    assert_eq!(body.friction.static_coefficient, Scalar::zero());
    assert_eq!(body.friction.dynamic_coefficient, Scalar::zero());
}

#[test]
fn generalized_inverse_mass_adds_the_angular_part() {
    let body = ball(1, Vector::zero(), 1.0, 1.0);
    let w = compute_generalized_inverse_mass(&body, v(1.0, 0.0, 0.0), v(0.0, 1.0, 0.0));
    assert_eq!(w, s(2.0));
    let heavy = ball(1, Vector::zero(), 0.5, 0.25);
    let w = compute_generalized_inverse_mass(&heavy, v(2.0, 0.0, 0.0), v(0.0, 1.0, 0.0));
    assert_eq!(w, s(1.5));
}

#[test]
fn generalized_inverse_mass_along_the_offset_is_the_inverse_mass() {
    let body = ball(1, Vector::zero(), 0.5, 4.0);
    let w = compute_generalized_inverse_mass(&body, v(3.0, 0.0, 0.0), v(1.0, 0.0, 0.0));
    assert_eq!(w, s(0.5));
}

#[test]
fn generalized_inverse_mass_of_an_immovable_body_is_zero() {
    let body = point_mass(1, Vector::zero(), 0.0);
    let w = compute_generalized_inverse_mass(&body, v(1.0, 2.0, 3.0), v(0.0, 1.0, 0.0));
    assert_eq!(w, Scalar::zero());
}

#[test]
fn lagrange_update_of_a_rigid_constraint() {
    let d = compute_lagrange_update(s(0.0), s(1.0), s(1.0), s(1.0), s(0.0), s(1.0));
    assert_eq!(d, s(-0.5));
    let d = compute_lagrange_update(s(0.0), s(-3.0), s(0.5), s(1.0), s(0.0), s(1.0));
    assert_eq!(d, s(2.0));
}

#[test]
fn lagrange_update_ignores_the_multiplier_of_a_rigid_constraint() {
    let d = compute_lagrange_update(s(7.0), s(1.0), s(1.0), s(1.0), s(0.0), s(0.5));
    assert_eq!(d, s(-0.5));
}

#[test]
fn lagrange_update_with_compliance() {
    let d = compute_lagrange_update(s(0.0), s(1.0), s(1.0), s(1.0), s(1.0), s(1.0));
    assert_eq!(d.raw, -1431655765);
    let d = compute_lagrange_update(s(0.5), s(1.0), s(1.0), s(1.0), s(1.0), s(1.0));
    assert_eq!(d, s(-0.5));
    let d = compute_lagrange_update(s(0.0), s(1.0), s(1.0), s(2.0), s(0.25), s(0.5));
    assert_eq!(d, s(-0.25));
}

#[test]
fn lagrange_update_skips_a_vanishing_denominator() {
    let d = compute_lagrange_update(s(0.0), s(1.0), s(0.0), s(0.0), s(0.0), s(1.0));
    assert_eq!(d, Scalar::zero());
    let at_tolerance = Scalar { raw: 512 };
    let d = compute_lagrange_update(s(0.0), s(1.0), at_tolerance, s(0.0), s(0.0), s(1.0));
    assert_eq!(d, Scalar::zero());
    let above_tolerance = Scalar { raw: 513 };
    let d = compute_lagrange_update(s(0.0), s(1.0), above_tolerance, s(0.0), s(0.0), s(1.0));
    assert_eq!(d.raw, -35958565445827585);
}

#[test]
fn larger_compliance_gives_a_smaller_increment() {
    let mut last = i64::MAX;
    for compliance in [0.0, 0.125, 0.5, 1.0, 4.0, 64.0] {
        let d = compute_lagrange_update(s(0.0), s(1.0), s(1.0), s(1.0), s(compliance), s(0.5));
        let size = d.abs().raw;
        assert!(size < last);
        last = size;
    }
}

#[test]
fn force_is_the_multiplier_along_the_direction_over_dt_squared() {
    assert_eq!(compute_force(s(2.0), v(1.0, 0.0, 0.0), s(0.5)), v(8.0, 0.0, 0.0));
    assert_eq!(compute_force(s(-0.5), v(0.0, 1.0, 0.0), s(1.0)), v(0.0, -0.5, 0.0));
    assert_eq!(compute_force(s(0.0), v(0.0, 1.0, 0.0), s(0.25)), Vector::zero());
}

#[test]
fn correct_body_moves_a_point_mass_by_inverse_mass_times_impulse() {
    let mut body = point_mass(1, v(1.0, 1.0, 1.0), 2.0);
    correct_body(&mut body, v(1.0, 0.0, -0.5), v(0.0, 1.0, 0.0));
    assert_eq!(body.position, v(3.0, 1.0, 0.0));
    assert_eq!(body.rotation, Quaternion::identity());
    assert_eq!(body.previous_position, v(1.0, 1.0, 1.0));
}

#[test]
fn correct_body_turns_a_body_and_keeps_the_rotation_at_unit_length() {
    let mut body = ball(1, Vector::zero(), 1.0, 1.0);
    correct_body(&mut body, v(1.0, 0.0, 0.0), v(0.0, 1.0, 0.0));
    assert_eq!(body.position, v(1.0, 0.0, 0.0));
    assert_eq!(body.rotation.x.raw, 0);
    assert_eq!(body.rotation.y.raw, 0);
    assert_eq!(body.rotation.z.raw, -1920767767);
    assert_eq!(body.rotation.w.raw, 3841535534);
    let length = body.rotation.length().raw;
    assert!((length - (1i64 << 32)).abs() <= 2);
}

#[test]
fn correct_body_leaves_an_immovable_body() {
    let mut body = point_mass(1, v(1.0, 2.0, 3.0), 0.0);
    body.rotation = Quaternion { x: s(0.0), y: s(0.0), z: s(0.5), w: s(0.5) };
    let before = body;
    correct_body(&mut body, v(5.0, -4.0, 3.0), v(1.0, 1.0, 1.0));
    assert_eq!(body.position, before.position);
    assert_eq!(body.rotation, before.rotation);
}

#[test]
fn positional_correction_pushes_the_bodies_opposite_ways() {
    let mut body1 = point_mass(1, v(2.0, 0.0, 0.0), 1.0);
    let mut body2 = point_mass(2, Vector::zero(), 3.0);
    apply_positional_correction(
        &mut body1,
        &mut body2,
        s(-0.25),
        v(1.0, 0.0, 0.0),
        Vector::zero(),
        Vector::zero(),
    );
    assert_eq!(body1.position, v(1.75, 0.0, 0.0));
    assert_eq!(body2.position, v(0.75, 0.0, 0.0));
}
