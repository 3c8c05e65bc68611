use std::collections::HashMap;

use common::component_movement::{
    EntityTargetSetter, PathState, PathTargetSetter, PathTargetStep, ProtectorInput,
};
use common::component_movement_behavior::PathState as OldPathState;
use common::game_state::StaticGameState;
use common::ids::{EntityId, PathId};
use common::play_target::UnitSpawnpointTarget;
use common::world::Direction;

fn paths() -> StaticGameState<(i32, i32)> {
    let mut paths = HashMap::new();
    paths.insert(7, vec![(0, 0), (1, 1), (2, 2), (3, 3)]);
    StaticGameState { paths }
}

fn state(idx: usize, direction: Direction) -> PathState {
    PathState { path_id: PathId(7), target_path_idx: idx, direction }
}

#[test]
fn incr_moves_along_and_stops_at_end() {
    let statics = paths();
    let mut ps = state(1, Direction::Positive);
    ps.incr(&statics);
    assert_eq!(ps.target_path_idx, 2);
    ps.incr(&statics);
    assert_eq!(ps.target_path_idx, 3);
    ps.incr(&statics);
    assert_eq!(ps.target_path_idx, 3);
    let mut back = state(1, Direction::Negative);
    back.incr(&statics);
    back.incr(&statics);
    assert_eq!(back.target_path_idx, 0);
}

#[test]
fn set_direction_turns_once() {
    let mut ps = state(2, Direction::Positive);
    ps.set_direction(Direction::Positive);
    assert_eq!(ps.target_path_idx, 2);
    ps.set_direction(Direction::Negative);
    assert_eq!(ps.target_path_idx, 1);
    assert_eq!(ps.direction, Direction::Negative);
}

#[test]
fn path_state_from_spawnpoint() {
    let ps = PathState::from(UnitSpawnpointTarget {
        path_id: PathId(3),
        path_idx: 4,
        direction: Direction::Negative,
    });
    assert_eq!(ps.target_path_idx, 3);
    assert_eq!(ps.path_id, PathId(3));
    assert_eq!(ps.direction, Direction::Negative);
}

#[test]
fn old_path_state_incr() {
    let mut ps = OldPathState { path_id: PathId(1), target_path_idx: 0, direction: Direction::Negative };
    ps.incr();
    assert_eq!(ps.target_path_idx, 0);
    ps.direction = Direction::Positive;
    ps.incr();
    assert_eq!(ps.target_path_idx, 1);
}

#[test]
fn path_target_setter_without_path_is_idle() {
    let mut setter = PathTargetSetter { path_state: None };
    assert_eq!(setter.update(ProtectorInput::NotProtector, Direction::Positive), PathTargetStep::Idle);
}

#[test]
fn path_target_setter_follows_path() {
    let mut setter = PathTargetSetter { path_state: Some(state(2, Direction::Positive)) };
    assert_eq!(
        setter.update(ProtectorInput::NotProtector, Direction::Positive),
        PathTargetStep::Approach { target_path_idx: 2 }
    );
}

#[test]
fn protector_turns_towards_building_and_stops_there() {
    let mut setter = PathTargetSetter { path_state: Some(state(3, Direction::Positive)) };
    let step = setter.update(
        ProtectorInput::Building { closest_path_idx: 1, close_enough: false },
        Direction::Positive,
    );
    assert_eq!(step, PathTargetStep::Approach { target_path_idx: 2 });
    assert_eq!(setter.path_state.unwrap().direction, Direction::Negative);
    let step = setter.update(
        ProtectorInput::Building { closest_path_idx: 1, close_enough: true },
        Direction::Positive,
    );
    assert_eq!(step, PathTargetStep::Stop);
    assert_eq!(setter.path_state.unwrap().target_path_idx, 2);
}

#[test]
fn protector_without_building_walks_home() {
    let mut setter = PathTargetSetter { path_state: Some(state(2, Direction::Negative)) };
    let step = setter.update(ProtectorInput::NoBuilding, Direction::Negative);
    assert_eq!(step, PathTargetStep::Approach { target_path_idx: 3 });
    assert_eq!(setter.path_state.unwrap().direction, Direction::Positive);
}

#[test]
fn entity_target_setter_finds_target() {
    let ids = vec![EntityId(4), EntityId(9), EntityId(9)];
    let setter = EntityTargetSetter { target_entity_id: Some(EntityId(9)) };
    assert_eq!(setter.update(&ids), Some(1));
    let gone = EntityTargetSetter { target_entity_id: Some(EntityId(5)) };
    assert_eq!(gone.update(&ids), None);
    let none = EntityTargetSetter { target_entity_id: None };
    assert_eq!(none.update(&ids), None);
}
