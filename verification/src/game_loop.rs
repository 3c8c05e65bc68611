use vstd::prelude::*;

use crate::entity::EntityState;
use crate::game_state::{SemiStaticGameState, ServerControlledGameState};
use crate::ids::EntityId;
use crate::world::BuildingLocation;

verus! {

broadcast use vstd::std_specs::hash::group_hash_axioms;

/// Whether the building location `loc` holds the entity `entity_id`.
pub open spec fn holds_entity<Pos>(loc: BuildingLocation<Pos>, entity_id: EntityId) -> bool {
    loc.entity_id == Some(entity_id)
}

/// The building location `loc` with its entity gone.
pub open spec fn vacated<Pos>(loc: BuildingLocation<Pos>) -> BuildingLocation<Pos> {
    BuildingLocation { pos: loc.pos, entity_id: None, zoning: loc.zoning }
}

/// Frees the building location that the removed entity `entity_id` stood on, if one did. The
/// building locations are marked as changed in any case.
pub fn cleanup_entity<Static, Pos, Dynamic>(
    entity_id: EntityId,
    server_controlled_game_state: &mut ServerControlledGameState<
        Static,
        SemiStaticGameState<Pos>,
        Dynamic,
    >,
)
    ensures
        final(server_controlled_game_state).semi_static_game_state.is_dirty(),
        final(server_controlled_game_state).game_metadata == old(
            server_controlled_game_state,
        ).game_metadata,
        final(server_controlled_game_state).static_game_state == old(
            server_controlled_game_state,
        ).static_game_state,
        final(server_controlled_game_state).dynamic_game_state == old(
            server_controlled_game_state,
        ).dynamic_game_state,
        ({
            let before = old(server_controlled_game_state).semi_static_game_state.locations()@;
            let after = final(server_controlled_game_state).semi_static_game_state.locations()@;
            if exists|k: u64| before.contains_key(k) && holds_entity(#[trigger] before[k], entity_id) {
                exists|k: u64|
                    before.contains_key(k) && holds_entity(#[trigger] before[k], entity_id) && after
                        == before.insert(k, vacated(before[k]))
            } else {
                after == before
            }
        }),
{
    let locations = server_controlled_game_state.semi_static_game_state.building_locations_mut();
    let ghost before = locations@;
    let mut found: Option<u64> = None;
    let ghost mut visited: Set<u64> = Set::empty();
    for k in it: locations.keys()
        invariant
            locations@ == before,
            it.seq().unref().to_set() == before.dom(),
            found matches Some(f) ==> before.contains_key(f) && holds_entity(before[f], entity_id),
            forall|x: u64| visited.contains(x) ==> before.contains_key(x),
            found is None ==> forall|x: u64|
                #[trigger] visited.contains(x) ==> !holds_entity(before[x], entity_id),
            forall|x: u64|
                #![trigger before.contains_key(x)]
                before.contains_key(x) ==> visited.contains(x) || exists|j: int|
                    it.index() <= j < it.seq().len() && it.seq().unref()[j] == x,
    {
        proof {
            visited = visited.insert(*k);
        }
        if found.is_none() {
            if let Some(loc) = locations.get(k) {
                let holds = match loc.entity_id {
                    Some(e) => e == entity_id,
                    None => false,
                };
                if holds {
                    found = Some(*k);
                }
            }
        }
    }
    if let Some(k) = found {
        if let Some(loc) = locations.remove(&k) {
            let freed = BuildingLocation { pos: loc.pos, entity_id: None, zoning: loc.zoning };
            locations.insert(k, freed);
            assert(locations@ =~= before.insert(k, vacated(before[k])));
        }
    } else {
        assert forall|k: u64| before.contains_key(k) implies !holds_entity(
            #[trigger] before[k],
            entity_id,
        ) by {
            assert(visited.contains(k));
        }
    }
}

/// Whether an entity is in its creation or spawn frame, whose state only the game state update
/// moves on.
pub open spec fn in_spawn_frames(state: EntityState) -> bool {
    state == EntityState::CreationFrame || state == EntityState::SpawnFrame
}

/// The state an entity takes this tick: an entity in its creation or spawn frame keeps it and does
/// nothing, as those states are moved on for all entities at once by the game state update;
/// any other entity attacks when one of its attacks has a target in reach, otherwise builds when
/// it stands at the building site it was sent to, otherwise moves.
pub open spec fn spec_entity_state(before: EntityState, can_attack: bool, can_build: bool) -> EntityState {
    if in_spawn_frames(before) {
        before
    } else if can_attack {
        EntityState::Attacking
    } else if can_build {
        EntityState::Building
    } else {
        EntityState::Moving
    }
}

/// Decides the state of an entity for this tick; the entity then moves, attacks or builds
/// according to it, while one in its creation or spawn frame keeps that state. `can_attack` says whether any of its attacks finds a target in range and
/// `can_build` whether it stands close enough to the site of the building it carries.
pub fn update_entity(state: &mut EntityState, can_attack: bool, can_build: bool)
    ensures
        *final(state) == spec_entity_state(*old(state), can_attack, can_build),
{
    if *state == EntityState::CreationFrame || *state == EntityState::SpawnFrame {
        return;
    }
    if can_attack {
        *state = EntityState::Attacking;
    } else if can_build {
        *state = EntityState::Building;
    } else {
        *state = EntityState::Moving;
    }
}

/// The building step of an entity: a builder in the building state that carries a building and
/// stands at its site puts the building up (the result says so) and is used up; otherwise
/// nothing happens.
pub fn builder_step(state: &mut EntityState, carries_building: bool, at_site: bool) -> (place: bool)
    ensures
        place == (*old(state) == EntityState::Building && carries_building && at_site),
        *final(state) == if place {
            EntityState::Dead
        } else {
            *old(state)
        },
{
    if *state == EntityState::Building && carries_building && at_site {
        *state = EntityState::Dead;
        true
    } else {
        false
    }
}

/// The state an entity enters at the start of a tick: a newly created entity spends one tick in
/// its spawn frame and then starts moving; any other state is kept.
pub open spec fn spec_next_spawn_state(state: EntityState) -> EntityState {
    match state {
        EntityState::CreationFrame => EntityState::SpawnFrame,
        EntityState::SpawnFrame => EntityState::Moving,
        other => other,
    }
}

/// Moves a newly created entity through its spawn frame, as the game state update does for every
/// entity at the start of a tick.
pub fn update_spawn_state(state: &mut EntityState)
    ensures
        *final(state) == spec_next_spawn_state(*old(state)),
{
    if *state == EntityState::CreationFrame {
        *state = EntityState::SpawnFrame;
    } else if *state == EntityState::SpawnFrame {
        *state = EntityState::Moving;
    }
}

/// A new entity is in its spawn frame for exactly one tick, after which it moves; an entity never
/// returns to its creation or spawn frame.
pub proof fn lemma_spawn_frame_lasts_one_tick(state: EntityState)
    ensures
        spec_next_spawn_state(EntityState::CreationFrame) == EntityState::SpawnFrame,
        spec_next_spawn_state(spec_next_spawn_state(EntityState::CreationFrame))
            == EntityState::Moving,
        spec_next_spawn_state(state) != EntityState::CreationFrame,
        state != EntityState::CreationFrame ==> spec_next_spawn_state(state)
            != EntityState::SpawnFrame,
{
}

/// An entity in its creation or spawn frame keeps it whatever it could do; any other entity
/// attacks before it builds, moves when it can do neither, and is never made dead by the
/// decision.
pub proof fn lemma_attack_before_build(before: EntityState, can_attack: bool, can_build: bool)
    ensures
        in_spawn_frames(before) ==> spec_entity_state(before, can_attack, can_build) == before,
        !in_spawn_frames(before) && can_attack ==> spec_entity_state(before, can_attack, can_build)
            == EntityState::Attacking,
        !in_spawn_frames(before) && !can_attack && can_build ==> spec_entity_state(
            before,
            can_attack,
            can_build,
        ) == EntityState::Building,
        !in_spawn_frames(before) && !can_attack && !can_build ==> spec_entity_state(
            before,
            can_attack,
            can_build,
        ) == EntityState::Moving,
        before != EntityState::Dead ==> spec_entity_state(before, can_attack, can_build)
            != EntityState::Dead,
{
}

} // verus!
