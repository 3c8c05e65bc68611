use common::component_attack::TargetPool;
use common::component_spy::Spy;
use common::entity::{AbilityFlag, EntityState, EntityTag};
use common::enum_flags::EnumFlags;
use common::find_target::can_find_target;
use common::game_loop::{update_entity, update_spawn_state};
use common::ids::{EntityId, PlayerId};
use common::textures::SpriteId;
use common::world::{next_path_idx, Direction};

#[test]
fn next_path_idx_steps_forward_and_back() {
    assert_eq!(next_path_idx(3, Direction::Positive), 4);
    assert_eq!(next_path_idx(3, Direction::Negative), 2);
    assert_eq!(next_path_idx(0, Direction::Positive), 1);
}

#[test]
fn next_path_idx_clamps_at_zero() {
    assert_eq!(next_path_idx(0, Direction::Negative), 0);
}

#[test]
fn direction_to_i32_and_flipped() {
    assert_eq!(Direction::Positive.to_i32(), 1);
    assert_eq!(Direction::Negative.to_i32(), -1);
    assert_eq!(Direction::Positive.flipped(), Direction::Negative);
    assert_eq!(Direction::Negative.flipped().flipped(), Direction::Negative);
}

#[test]
fn enum_flags_set_unset_is_set() {
    let mut flags = EnumFlags::<EntityTag>::new();
    assert!(!flags.is_set(&EntityTag::Tower));
    flags.set(&EntityTag::Tower);
    flags.set(&EntityTag::Unit);
    assert!(flags.is_set(&EntityTag::Tower));
    assert!(flags.is_set(&EntityTag::Unit));
    assert!(!flags.is_set(&EntityTag::Base));
    flags.unset(&EntityTag::Tower);
    assert!(!flags.is_set(&EntityTag::Tower));
    assert!(flags.is_set(&EntityTag::Unit));
}

#[test]
fn enum_flags_set_twice_and_unset_absent() {
    let mut flags = EnumFlags::<EntityTag>::new();
    flags.set(&EntityTag::Bullet);
    flags.set(&EntityTag::Bullet);
    assert!(flags.is_set(&EntityTag::Bullet));
    flags.unset(&EntityTag::FlyingUnit);
    assert!(flags.is_set(&EntityTag::Bullet));
    assert!(!flags.is_set(&EntityTag::FlyingUnit));
}

#[test]
fn enum_flags_all_and_default() {
    let all = EnumFlags::<EntityTag>::all();
    for tag in [
        EntityTag::NoTag,
        EntityTag::Base,
        EntityTag::Tower,
        EntityTag::Unit,
        EntityTag::FlyingUnit,
        EntityTag::Bullet,
    ] {
        assert!(all.is_set(&tag));
    }
    let none: EnumFlags<AbilityFlag> = Default::default();
    assert!(!none.is_set(&AbilityFlag::Protector));
    let mut abilities = EnumFlags::<AbilityFlag>::new();
    let returned = abilities.set(&AbilityFlag::Protector).is_set(&AbilityFlag::Protector);
    assert!(returned);
}

#[test]
fn target_pools() {
    let a = PlayerId(1);
    let b = PlayerId(2);
    assert!(TargetPool::Allies.in_pool(a, a));
    assert!(!TargetPool::Allies.in_pool(a, b));
    assert!(TargetPool::Enemies.in_pool(a, b));
    assert!(!TargetPool::Enemies.in_pool(b, b));
    assert!(TargetPool::All.in_pool(a, b));
    assert!(TargetPool::All.in_pool(a, a));
}

#[test]
fn spy_hides_from_first_units_only() {
    let mut spy = Spy::new(2);
    assert!(spy.is_hidden());
    assert!(spy.can_hide_from(EntityId(10), EntityTag::Unit));
    assert!(spy.can_hide_from(EntityId(11), EntityTag::Unit));
    // meeting the same unit again uses no capacity
    assert!(spy.can_hide_from(EntityId(11), EntityTag::Unit));
    // towers are not counted
    assert!(spy.can_hide_from(EntityId(12), EntityTag::Tower));
    assert_eq!(spy.is_hidden_from.len(), 2);
    assert!(!spy.can_hide_from(EntityId(13), EntityTag::Unit));
    assert!(!spy.is_hidden());
    // exposure is permanent
    assert!(!spy.can_hide_from(EntityId(10), EntityTag::Unit));
}

#[test]
fn spy_with_no_capacity_is_seen_by_first_unit() {
    let mut spy = Spy::new(0);
    assert!(spy.is_hidden());
    assert!(!spy.can_hide_from(EntityId(1), EntityTag::Unit));
}

#[test]
fn hidden_spy_only_targets_buildings() {
    let spy = Spy::new(2);
    assert!(!can_find_target(EntityId(1), EntityTag::Unit, Some(&spy), EntityTag::Unit, None));
    assert!(can_find_target(EntityId(1), EntityTag::Unit, Some(&spy), EntityTag::Tower, None));
    assert!(can_find_target(EntityId(1), EntityTag::Unit, Some(&spy), EntityTag::Base, None));
    assert!(can_find_target(EntityId(1), EntityTag::Unit, None, EntityTag::Unit, None));
}

#[test]
fn spy_targets_are_seen_once_exposed() {
    let mut target = Spy::new(1);
    assert!(!can_find_target(EntityId(5), EntityTag::Unit, None, EntityTag::Unit, Some(&mut target)));
    assert!(can_find_target(EntityId(6), EntityTag::Unit, None, EntityTag::Unit, Some(&mut target)));
    // a tower attacking a spy is not counted as a meeting
    let mut other = Spy::new(0);
    assert!(!can_find_target(EntityId(7), EntityTag::Tower, None, EntityTag::Unit, Some(&mut other)));
    assert_eq!(other.is_hidden_from.len(), 0);
}

#[test]
fn entity_state_decision() {
    let mut state = EntityState::Passive;
    update_entity(&mut state, true, true);
    assert_eq!(state, EntityState::Attacking);
    update_entity(&mut state, false, true);
    assert_eq!(state, EntityState::Building);
    update_entity(&mut state, false, false);
    assert_eq!(state, EntityState::Moving);
}

#[test]
fn new_entities_wait_out_their_spawn_frames() {
    let mut created = EntityState::CreationFrame;
    update_entity(&mut created, true, true);
    assert_eq!(created, EntityState::CreationFrame);
    let mut spawning = EntityState::SpawnFrame;
    update_entity(&mut spawning, false, true);
    assert_eq!(spawning, EntityState::SpawnFrame);
    update_spawn_state(&mut spawning);
    update_entity(&mut spawning, true, false);
    assert_eq!(spawning, EntityState::Attacking);
}

#[test]
fn spawn_frame_lasts_one_tick() {
    let mut state = EntityState::CreationFrame;
    update_spawn_state(&mut state);
    assert_eq!(state, EntityState::SpawnFrame);
    update_spawn_state(&mut state);
    assert_eq!(state, EntityState::Moving);
    update_spawn_state(&mut state);
    assert_eq!(state, EntityState::Moving);
    let mut dead = EntityState::Dead;
    update_spawn_state(&mut dead);
    assert_eq!(dead, EntityState::Dead);
}

#[test]
fn sprite_paths() {
    assert_eq!(SpriteId::MapBackground.to_path(), "map.png");
    assert_eq!(SpriteId::UnitRecklessKnight.to_path(), "reckless_knight.png");
    assert_eq!(SpriteId::Empty.to_path(), "x.png");
    assert_eq!(SpriteId::BuildingTradingPlace.to_path(), "building_trading_place.png");
    assert_eq!(SpriteId::default(), SpriteId::Empty);
}

#[test]
fn random_ids_differ() {
    let a = EntityId::new();
    let b = EntityId::new();
    let c = EntityId::new();
    assert!(a != b || b != c);
}
