//! Constraints for rigid bodies, solved by extended position-based dynamics.
//!
//! A constraint corrects the positions and rotations of its bodies directly, a
//! little in every substep, and accumulates a Lagrange multiplier from which the
//! force that it exerts can be read. This crate holds a distance joint and a
//! penetration constraint with static friction, the arithmetic that both share,
//! and the fixed-point numbers, vectors, matrices and quaternions that the
//! arithmetic is done in.
//!
//! Every function is total. Numbers are clamped to the representable range,
//! quotients are rounded toward zero, and a constraint that has no direction to
//! correct along, or nothing to correct, leaves its bodies alone.

pub mod body;
pub mod constraints;
pub mod contact;
pub mod matrix;
pub mod quaternion;
pub mod root;
pub mod scalar;
pub mod vector;
