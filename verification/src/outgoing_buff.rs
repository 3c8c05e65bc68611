use vstd::prelude::*;

use crate::component_attack::AttackVariant;

verus! {

/// The quantity an outgoing buff changes.
#[derive(Clone, Copy, Debug, PartialEq, Eq, Structural)]
pub enum OutgoingBuffType {
    AttackDamage,
    AttackRange,
    AttackSpeed,
    MovementSpeed,
}

impl OutgoingBuffType {
    /// Whether a buff of this type reaches an attack of variant `variant`: range buffs lengthen
    /// only ranged attacks, damage and speed buffs reach every attack, and movement buffs reach
    /// none.
    pub open spec fn spec_reaches_attack(self, variant: AttackVariant) -> bool {
        match self {
            OutgoingBuffType::AttackRange => variant == AttackVariant::RangedAttack,
            OutgoingBuffType::AttackDamage | OutgoingBuffType::AttackSpeed => true,
            OutgoingBuffType::MovementSpeed => false,
        }
    }

    /// Whether a buff of this type reaches an attack of variant `variant`.
    pub fn reaches_attack(&self, variant: AttackVariant) -> (r: bool)
        ensures
            r == self.spec_reaches_attack(variant),
    {
        match self {
            OutgoingBuffType::AttackRange => variant == AttackVariant::RangedAttack,
            OutgoingBuffType::AttackDamage | OutgoingBuffType::AttackSpeed => true,
            OutgoingBuffType::MovementSpeed => false,
        }
    }
}

} // verus!
