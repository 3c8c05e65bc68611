use vstd::prelude::*;

verus! {

/// Calls `rand::random::<u64>()`, a draw from the thread-local generator of `rand`.
/// Nothing is promised of the value: it depends on chance.
#[verifier::external_body]
pub(crate) fn random_u64() -> u64 {
    rand::random::<u64>()
}

/// Identifies an entity in the dynamic game state.
#[derive(Debug, Clone, Copy, PartialEq, Eq, Hash, Structural)]
pub struct EntityId(pub u64);

/// Identifies one copy of a card in a player's deck.
#[derive(Debug, Clone, Copy, PartialEq, Eq, Hash, Structural)]
pub struct CardInstanceId(pub u64);

/// Identifies a spot on the map where a building can stand.
#[derive(Debug, Clone, Copy, PartialEq, Eq, Hash, Structural)]
pub struct BuildingLocationId(pub u64);

/// Identifies a path units walk along.
#[derive(Debug, Clone, Copy, PartialEq, Eq, Hash, Structural)]
pub struct PathId(pub u64);

/// Identifies a player.
#[derive(Debug, Clone, Copy, PartialEq, Eq, Hash, Structural)]
pub struct PlayerId(pub u64);

/// Identifies a game session.
#[derive(Debug, Clone, Copy, PartialEq, Eq, Hash, Structural)]
pub struct GameId(pub u64);

impl EntityId {
    /// A fresh identifier drawn at random; any `u64` may come back.
    pub fn new() -> Self {
        Self(random_u64())
    }
}

impl CardInstanceId {
    /// A fresh identifier drawn at random; any `u64` may come back.
    pub fn new() -> Self {
        Self(random_u64())
    }
}

impl BuildingLocationId {
    /// A fresh identifier drawn at random; any `u64` may come back.
    pub fn new() -> Self {
        Self(random_u64())
    }
}

impl PathId {
    /// A fresh identifier drawn at random; any `u64` may come back.
    pub fn new() -> Self {
        Self(random_u64())
    }
}

impl PlayerId {
    /// A fresh identifier drawn at random; any `u64` may come back.
    pub fn new() -> Self {
        Self(random_u64())
    }
}

impl GameId {
    /// A fresh identifier drawn at random; any `u64` may come back.
    pub fn new() -> Self {
        Self(random_u64())
    }
}

} // verus!
