use vstd::prelude::*;

use crate::ids::{BuildingLocationId, EntityId, PathId};
use crate::world::Direction;

verus! {

/// A point of a path where a player may spawn units, with the direction they will walk.
#[derive(Debug, Clone, Copy, PartialEq, Eq, Structural)]
pub struct UnitSpawnpointTarget {
    pub path_id: PathId,
    pub path_idx: usize,
    pub direction: Direction,
}

/// A building location a card is played on.
#[derive(Debug, Clone, Copy, PartialEq, Eq, Structural)]
pub struct BuildingLocationTarget {
    pub id: BuildingLocationId,
}

/// An entity a card is played on.
#[derive(Debug, Clone, Copy, PartialEq, Eq, Structural)]
pub struct EntityTarget {
    pub id: EntityId,
}

/// Which kind of target a card is played on: a point of the world, a spawn point, a building
/// location or an entity.
#[derive(Debug, Clone, Copy, PartialEq, Eq, Structural)]
pub enum PlayTargetKind {
    WorldPos,
    UnitSpawnpoint,
    BuildingLocation,
    Entity,
}

} // verus!
