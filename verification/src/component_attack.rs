use vstd::prelude::*;

use crate::ids::PlayerId;

verus! {

/// Which entities, relative to an owner, an attack or filter may reach.
#[derive(Debug, Clone, Copy, PartialEq, Eq, Structural)]
pub enum TargetPool {
    Enemies,
    Allies,
    All,
}

impl TargetPool {
    /// Whether an entity owned by `player_id_b` is in the pool seen from `player_id_a`.
    pub open spec fn spec_in_pool(self, player_id_a: PlayerId, player_id_b: PlayerId) -> bool {
        match self {
            TargetPool::Allies => player_id_a == player_id_b,
            TargetPool::Enemies => player_id_a != player_id_b,
            TargetPool::All => true,
        }
    }

    /// Whether player `player_id_b` belongs to this pool as seen by player `player_id_a`.
    pub fn in_pool(&self, player_id_a: PlayerId, player_id_b: PlayerId) -> (r: bool)
        ensures
            r == self.spec_in_pool(player_id_a, player_id_b),
    {
        match self {
            TargetPool::Allies => player_id_a == player_id_b,
            TargetPool::Enemies => player_id_a != player_id_b,
            TargetPool::All => true,
        }
    }
}

/// Every entity is either an ally or an enemy of a given owner, never both, and the whole
/// pool holds them all.
pub proof fn lemma_pools_partition(player_id_a: PlayerId, player_id_b: PlayerId)
    ensures
        TargetPool::Allies.spec_in_pool(player_id_a, player_id_b) != TargetPool::Enemies.spec_in_pool(
            player_id_a,
            player_id_b,
        ),
        TargetPool::All.spec_in_pool(player_id_a, player_id_b),
        TargetPool::Allies.spec_in_pool(player_id_a, player_id_a),
        !TargetPool::Enemies.spec_in_pool(player_id_a, player_id_a),
{
}

/// Whether one pool membership gives the same answer from either side.
pub proof fn lemma_in_pool_symmetric(pool: TargetPool, player_id_a: PlayerId, player_id_b: PlayerId)
    ensures
        pool.spec_in_pool(player_id_a, player_id_b) == pool.spec_in_pool(player_id_b, player_id_a),
{
}

/// How an attack reaches its target: by a projectile or by a direct hit.
#[derive(PartialEq, Eq, Debug, Clone, Copy, Structural)]
pub enum AttackVariant {
    RangedAttack,
    MeleeAttack,
}

} // verus!
