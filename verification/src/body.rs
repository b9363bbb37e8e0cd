//! The state of a rigid body as a constraint sees it.

use crate::matrix::Matrix3;
use crate::quaternion::Quaternion;
use crate::scalar::Scalar;
use crate::vector::Vector;
use bevy::ecs::entity::Entity;
use vstd::prelude::*;

verus! {

/// bevy's `Entity`, the identifier that its entity store gives each body. It is
/// declared so that constraints can keep the identifiers of their bodies and hand
/// them back; nothing is claimed of what an identifier holds.
#[verifier::external_type_specification]
#[verifier::external_body]
pub struct ExEntity(bevy::ecs::entity::Entity);

/// The rule by which the friction coefficients of two touching bodies become one.
/// Where the two bodies name different rules, the later one in this list wins.
#[derive(Clone, Copy, Debug, PartialEq, Eq, Structural)]
pub enum CoefficientCombine {
    /// Half the sum of the two coefficients.
    Average,
    /// The smaller of the two.
    Min,
    /// Their product.
    Multiply,
    /// The larger of the two.
    Max,
}

impl CoefficientCombine {
    /// The rule's place in the order of precedence.
    pub open spec fn spec_rank(self) -> int {
        match self {
            CoefficientCombine::Average => 1,
            CoefficientCombine::Min => 2,
            CoefficientCombine::Multiply => 3,
            CoefficientCombine::Max => 4,
        }
    }

    /// Of two rules, the one of higher precedence.
    pub open spec fn spec_prevailing(self, other: CoefficientCombine) -> CoefficientCombine {
        if self.spec_rank() >= other.spec_rank() {
            self
        } else {
            other
        }
    }

    /// The combination of two coefficients under this rule.
    pub open spec fn spec_mix(self, a: Scalar, b: Scalar) -> Scalar {
        match self {
            CoefficientCombine::Average => a.spec_plus(b).spec_times(Scalar::spec_half()),
            CoefficientCombine::Min => if a@ <= b@ {
                a
            } else {
                b
            },
            CoefficientCombine::Multiply => a.spec_times(b),
            CoefficientCombine::Max => if a@ >= b@ {
                a
            } else {
                b
            },
        }
    }

    pub fn rank(self) -> (out: u8)
        ensures
            out == self.spec_rank(),
    {
        match self {
            CoefficientCombine::Average => 1,
            CoefficientCombine::Min => 2,
            CoefficientCombine::Multiply => 3,
            CoefficientCombine::Max => 4,
        }
    }

    pub fn prevailing(self, other: CoefficientCombine) -> (out: CoefficientCombine)
        ensures
            out == self.spec_prevailing(other),
    {
        if self.rank() >= other.rank() {
            self
        } else {
            other
        }
    }

    pub fn mix(self, a: Scalar, b: Scalar) -> (out: Scalar)
        ensures
            out == self.spec_mix(a, b),
    {
        match self {
            CoefficientCombine::Average => a.plus(b).times(Scalar::half()),
            CoefficientCombine::Min => if a.at_most(b) {
                a
            } else {
                b
            },
            CoefficientCombine::Multiply => a.times(b),
            CoefficientCombine::Max => if b.at_most(a) {
                a
            } else {
                b
            },
        }
    }
}

/// How much a body's surface resists sliding.
#[derive(Clone, Copy, Debug, PartialEq, Eq, Structural)]
pub struct Friction {
    /// The coefficient that applies while the surfaces slide.
    pub dynamic_coefficient: Scalar,
    /// The coefficient that applies while the surfaces rest on each other.
    pub static_coefficient: Scalar,
    /// The rule used when this body touches another.
    pub combine_rule: CoefficientCombine,
}

impl Friction {
    /// The friction of a contact between a body with this friction and one with
    /// `other`: both coefficients mixed under the prevailing rule.
    pub open spec fn spec_combine(self, other: Friction) -> Friction {
        let rule = self.combine_rule.spec_prevailing(other.combine_rule);
        Friction {
            dynamic_coefficient: rule.spec_mix(self.dynamic_coefficient, other.dynamic_coefficient),
            static_coefficient: rule.spec_mix(self.static_coefficient, other.static_coefficient),
            combine_rule: rule,
        }
    }

    /// Friction with both coefficients equal to `coefficient`, combined by averaging.
    pub fn new(coefficient: Scalar) -> (out: Friction)
        ensures
            out == (Friction {
                dynamic_coefficient: coefficient,
                static_coefficient: coefficient,
                combine_rule: CoefficientCombine::Average,
            }),
    {
        Friction {
            dynamic_coefficient: coefficient,
            static_coefficient: coefficient,
            combine_rule: CoefficientCombine::Average,
        }
    }

    pub fn combine(self, other: Friction) -> (out: Friction)
        ensures
            out == self.spec_combine(other),
    {
        let rule = self.combine_rule.prevailing(other.combine_rule);
        Friction {
            dynamic_coefficient: rule.mix(self.dynamic_coefficient, other.dynamic_coefficient),
            static_coefficient: rule.mix(self.static_coefficient, other.static_coefficient),
            combine_rule: rule,
        }
    }
}

/// What a constraint reads and writes of one body.
#[derive(Clone, Copy, Debug)]
pub struct RigidBody {
    /// The body's identifier.
    pub entity: Entity,
    /// Where the body is now.
    pub position: Vector,
    /// How the body is turned now.
    pub rotation: Quaternion,
    /// Where the body was when the step began.
    pub previous_position: Vector,
    /// How the body was turned when the step began.
    pub previous_rotation: Quaternion,
    /// One over the mass; zero for a body that cannot be moved.
    pub inverse_mass: Scalar,
    /// The inverse of the inertia tensor in world space; zero for a body that cannot
    /// be turned.
    pub inverse_inertia: Matrix3,
    /// The center of mass in the body's own frame.
    pub center_of_mass: Vector,
    /// The friction of the body's surface.
    pub friction: Friction,
}

impl RigidBody {
    /// Whether no correction can move or turn the body.
    pub open spec fn is_immovable(self) -> bool {
        self.inverse_mass == Scalar::spec_zero() && self.inverse_inertia == Matrix3::spec_zero()
    }

    /// A body at rest at `position`, unturned, with the given inverse mass and
    /// inverse inertia, its center of mass at its origin and no friction.
    pub fn new(entity: Entity, position: Vector, inverse_mass: Scalar, inverse_inertia: Matrix3) -> (out: RigidBody)
        ensures
            out == (RigidBody {
                entity,
                position,
                rotation: Quaternion::spec_identity(),
                previous_position: position,
                previous_rotation: Quaternion::spec_identity(),
                inverse_mass,
                inverse_inertia,
                center_of_mass: Vector::spec_zero(),
                friction: Friction {
                    dynamic_coefficient: Scalar::spec_zero(),
                    static_coefficient: Scalar::spec_zero(),
                    combine_rule: CoefficientCombine::Average,
                },
            }),
    {
        RigidBody {
            entity,
            position,
            rotation: Quaternion::identity(),
            previous_position: position,
            previous_rotation: Quaternion::identity(),
            inverse_mass,
            inverse_inertia,
            center_of_mass: Vector::zero(),
            friction: Friction::new(Scalar::zero()),
        }
    }
}

} // verus!
