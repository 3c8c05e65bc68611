use vstd::prelude::*;

verus! {

/// How an attack of the simple attack model reaches its target.
#[derive(PartialEq, Eq, Clone, Copy, Debug, Structural)]
pub enum AttackVariant {
    RangedAttack,
    MeleeAttack,
}

} // verus!
