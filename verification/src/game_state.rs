use std::collections::HashMap;
use vstd::prelude::*;

use crate::ids::{EntityId, GameId};
use crate::world::BuildingLocation;

verus! {

broadcast use vstd::std_specs::hash::group_hash_axioms;

/// The parts of a game that never change once it is set up: its paths, keyed by the `u64` inside
/// their `PathId`, each a list of points.
#[derive(Debug, Clone)]
pub struct StaticGameState<Point> {
    pub paths: HashMap<u64, Vec<Point>>,
}

/// The parts of a game that change rarely: the building locations, keyed by the `u64` inside
/// their `BuildingLocationId`. `dirty` records that they may have changed since they were last
/// sent to the players.
#[derive(Debug)]
pub struct SemiStaticGameState<Pos> {
    building_locations: HashMap<u64, BuildingLocation<Pos>>,
    pub dirty: bool,
}

impl<Pos> SemiStaticGameState<Pos> {
    /// The building locations, keyed by identifier.
    pub closed spec fn locations(&self) -> HashMap<u64, BuildingLocation<Pos>> {
        self.building_locations
    }

    /// Whether the building locations may have changed since they were last sent.
    pub closed spec fn is_dirty(&self) -> bool {
        self.dirty
    }

    /// The `dirty` field, as `is_dirty` speaks of it.
    pub fn dirty_flag(&self) -> (r: bool)
        ensures
            r == self.is_dirty(),
    {
        self.dirty
    }

    /// Sets the `dirty` field, as when the building locations have been sent; they stay as they
    /// are.
    pub fn set_dirty(&mut self, dirty: bool)
        ensures
            final(self).is_dirty() == dirty,
            final(self).locations() == old(self).locations(),
    {
        self.dirty = dirty;
    }

    /// A state with no building location, not yet changed.
    pub fn new() -> (r: Self)
        ensures
            r.locations()@ == Map::<u64, BuildingLocation<Pos>>::empty(),
            !r.is_dirty(),
    {
        Self { building_locations: HashMap::new(), dirty: false }
    }

    /// Hands out the building locations for change, and records that they may have changed.
    pub fn building_locations_mut(&mut self) -> (r: &mut HashMap<u64, BuildingLocation<Pos>>)
        ensures
            *r == old(self).locations(),
            final(self).locations() == *final(r),
            final(self).is_dirty(),
    {
        self.dirty = true;
        &mut self.building_locations
    }

    /// The building locations, to read.
    pub fn building_locations(&self) -> (r: &HashMap<u64, BuildingLocation<Pos>>)
        ensures
            *r == self.locations(),
    {
        &self.building_locations
    }
}

impl<Pos> Default for SemiStaticGameState<Pos> {
    fn default() -> (r: Self)
        ensures
            r.locations()@ == Map::<u64, BuildingLocation<Pos>>::empty(),
            !r.is_dirty(),
    {
        Self::new()
    }
}

/// Which game a state or message belongs to, and at which server tick it was taken.
#[derive(Debug, Clone, Copy, PartialEq, Eq, Structural)]
pub struct GameMetadata {
    pub game_id: GameId,
    pub server_tick: u32,
}

/// The part of the game state a server message carries.
#[derive(Debug)]
pub enum ServerMessageData<Static, SemiStatic, Dynamic> {
    StaticGameState(Static),
    SemiStaticGameState(SemiStatic),
    DynamicGameState(Dynamic),
}

/// A message from the server: one part of its game state, stamped with the game and tick.
#[derive(Debug)]
pub struct ServerMessage<Static, SemiStatic, Dynamic> {
    pub metadata: GameMetadata,
    pub data: ServerMessageData<Static, SemiStatic, Dynamic>,
}

/// The game state the server decides and sends to its players, as a player holds it.
#[derive(Debug)]
pub struct ServerControlledGameState<Static, SemiStatic, Dynamic> {
    pub game_metadata: GameMetadata,
    pub static_game_state: Static,
    pub semi_static_game_state: SemiStatic,
    pub dynamic_game_state: Dynamic,
}

/// Whether a message stamped `incoming` is older than the state stamped `current` of the same
/// game, and so must be dropped.
pub open spec fn is_stale(current: GameMetadata, incoming: GameMetadata) -> bool {
    current.server_tick > incoming.server_tick && incoming.game_id == current.game_id
}

impl<Static, SemiStatic, Dynamic> ServerControlledGameState<Static, SemiStatic, Dynamic> {
    /// Takes in a message from the server unless it is older than the state of the same game;
    /// says whether it was taken in.
    pub fn update_with_server_message(
        &mut self,
        server_message: ServerMessage<Static, SemiStatic, Dynamic>,
    ) -> (r: bool)
        ensures
            r == !is_stale(old(self).game_metadata, server_message.metadata),
            !r ==> *final(self) == *old(self),
            r ==> final(self).game_metadata == server_message.metadata,
            r ==> match server_message.data {
                ServerMessageData::StaticGameState(s) => {
                    &&& final(self).static_game_state == s
                    &&& final(self).semi_static_game_state == old(self).semi_static_game_state
                    &&& final(self).dynamic_game_state == old(self).dynamic_game_state
                },
                ServerMessageData::SemiStaticGameState(s) => {
                    &&& final(self).static_game_state == old(self).static_game_state
                    &&& final(self).semi_static_game_state == s
                    &&& final(self).dynamic_game_state == old(self).dynamic_game_state
                },
                ServerMessageData::DynamicGameState(d) => {
                    &&& final(self).static_game_state == old(self).static_game_state
                    &&& final(self).semi_static_game_state == old(self).semi_static_game_state
                    &&& final(self).dynamic_game_state == d
                },
            },
    {
        if self.game_metadata.server_tick > server_message.metadata.server_tick
            && server_message.metadata.game_id == self.game_metadata.game_id
        {
            false
        } else {
            self.game_metadata = server_message.metadata;
            match server_message.data {
                ServerMessageData::StaticGameState(static_state) => {
                    self.static_game_state = static_state;
                },
                ServerMessageData::DynamicGameState(dynamic_state) => {
                    self.dynamic_game_state = dynamic_state;
                },
                ServerMessageData::SemiStaticGameState(semi_static_state) => {
                    self.semi_static_game_state = semi_static_state;
                },
            }
            true
        }
    }
}

/// Within one game, the tick a player holds never goes back: a message is taken in only when it
/// is at least as recent as the state, or when it belongs to another game.
pub proof fn lemma_ticks_never_go_back(current: GameMetadata, incoming: GameMetadata)
    ensures
        !is_stale(current, incoming) && incoming.game_id == current.game_id ==> incoming.server_tick
            >= current.server_tick,
        incoming.game_id != current.game_id ==> !is_stale(current, incoming),
        incoming == current ==> !is_stale(current, incoming),
{
}

/// A message is dropped exactly when it belongs to the same game and carries an older tick than
/// the state: every message of the same game with the same or a later tick is taken in, however
/// far its tick jumps ahead, and so is every message of another game.
pub proof fn lemma_stale_exactly_when_older(current: GameMetadata, incoming: GameMetadata)
    ensures
        is_stale(current, incoming) <==> (incoming.game_id == current.game_id
            && incoming.server_tick < current.server_tick),
        incoming.game_id == current.game_id && incoming.server_tick >= current.server_tick
            ==> !is_stale(current, incoming),
{
}

} // verus!
