use common::component_attack::TargetPool;
use common::component_buff_source::{BuffCondition, BuffRange, BuffTargetFilter};
use common::component_self_buff::SelfBuffCondition;
use common::entity::{EntityState, EntityTag};
use common::entity_filter::{EntityFilter, FilterCandidate};
use common::enum_flags::EnumFlags;
use common::game_loop::cleanup_entity;
use common::game_state::{
    GameMetadata, SemiStaticGameState, ServerControlledGameState, ServerMessage, ServerMessageData,
};
use common::ids::{EntityId, GameId, PlayerId};
use common::message_acknowledgement::{
    new_message, on_receive, remove_acknowledged, resend_decision, AckId, Message, ReceiveAction,
    ResendDecision,
};
use common::world::{BuildingLocation, Zoning};

fn meta(game: u64, tick: u32) -> GameMetadata {
    GameMetadata { game_id: GameId(game), server_tick: tick }
}

fn game() -> ServerControlledGameState<u8, u16, u32> {
    ServerControlledGameState {
        game_metadata: meta(1, 10),
        static_game_state: 0,
        semi_static_game_state: 0,
        dynamic_game_state: 0,
    }
}

#[test]
fn stale_message_is_dropped() {
    let mut g = game();
    let taken = g.update_with_server_message(ServerMessage {
        metadata: meta(1, 9),
        data: ServerMessageData::DynamicGameState(5),
    });
    assert!(!taken);
    assert_eq!(g.game_metadata, meta(1, 10));
    assert_eq!(g.dynamic_game_state, 0);
}

#[test]
fn newer_or_other_game_message_is_taken() {
    let mut g = game();
    assert!(g.update_with_server_message(ServerMessage {
        metadata: meta(1, 10),
        data: ServerMessageData::StaticGameState(3),
    }));
    assert_eq!(g.static_game_state, 3);
    assert!(g.update_with_server_message(ServerMessage {
        metadata: meta(2, 1),
        data: ServerMessageData::SemiStaticGameState(4),
    }));
    assert_eq!(g.game_metadata, meta(2, 1));
    assert_eq!(g.semi_static_game_state, 4);
    assert_eq!(g.static_game_state, 3);
}

fn location(entity: Option<u64>) -> BuildingLocation<(i32, i32)> {
    BuildingLocation { pos: (1, 2), entity_id: entity.map(EntityId), zoning: Zoning::Normal }
}

#[test]
fn building_locations_mut_marks_dirty() {
    let mut s: SemiStaticGameState<(i32, i32)> = SemiStaticGameState::new();
    assert!(!s.dirty);
    assert!(s.building_locations().is_empty());
    s.building_locations_mut().insert(3, location(None));
    assert!(s.dirty);
    assert_eq!(s.building_locations().len(), 1);
}

#[test]
fn cleanup_frees_location_of_dead_entity() {
    let mut semi = SemiStaticGameState::new();
    semi.building_locations_mut().insert(1, location(Some(50)));
    semi.building_locations_mut().insert(2, location(Some(60)));
    semi.dirty = false;
    let mut g = ServerControlledGameState {
        game_metadata: meta(1, 1),
        static_game_state: (),
        semi_static_game_state: semi,
        dynamic_game_state: (),
    };
    cleanup_entity(EntityId(50), &mut g);
    let locs = g.semi_static_game_state.building_locations();
    assert_eq!(locs.get(&1).unwrap().entity_id, None);
    assert_eq!(locs.get(&2).unwrap().entity_id, Some(EntityId(60)));
    assert!(g.semi_static_game_state.dirty);
    cleanup_entity(EntityId(77), &mut g);
    assert_eq!(g.semi_static_game_state.building_locations().get(&2).unwrap().entity_id, Some(EntityId(60)));
}

fn candidate(owner: u64, tag: EntityTag, state: EntityState, beyond: bool) -> FilterCandidate {
    FilterCandidate { owner: PlayerId(owner), tag, state, beyond_range: beyond }
}

fn towers_of_allies() -> EntityFilter<BuffRange> {
    let mut tags = EnumFlags::new();
    tags.set(&EntityTag::Tower);
    EntityFilter { range_filter: Some(BuffRange::Default), pool_filter: Some(TargetPool::Allies), tag_filter: Some(tags) }
}

fn candidates() -> Vec<FilterCandidate> {
    vec![
        candidate(1, EntityTag::Tower, EntityState::Moving, false),
        candidate(1, EntityTag::Tower, EntityState::SpawnFrame, true),
        candidate(2, EntityTag::Tower, EntityState::SpawnFrame, false),
        candidate(1, EntityTag::Unit, EntityState::SpawnFrame, false),
        candidate(1, EntityTag::Tower, EntityState::SpawnFrame, false),
    ]
}

#[test]
fn entity_filter_selects_by_range_pool_and_tag() {
    let f = towers_of_allies();
    let c = candidates();
    assert!(f.predicate(PlayerId(1), &c[0]));
    assert!(!f.predicate(PlayerId(1), &c[1]));
    assert!(!f.predicate(PlayerId(1), &c[2]));
    assert!(!f.predicate(PlayerId(1), &c[3]));
    assert_eq!(f.count(PlayerId(1), &c), 2);
    assert_eq!(f.select(PlayerId(1), &c, false), vec![0, 4]);
    assert_eq!(f.select(PlayerId(1), &c, true), vec![4]);
    let open: EntityFilter<BuffRange> = EntityFilter::default();
    assert_eq!(open.count(PlayerId(1), &c), 5);
}

#[test]
fn buff_conditions_and_targets() {
    let c = candidates();
    assert_eq!(BuffCondition::AlwaysSingle.apply_count(PlayerId(1), &c), 1);
    assert_eq!(BuffCondition::EntityFilter(towers_of_allies()).apply_count(PlayerId(1), &c), 2);
    assert_eq!(BuffTargetFilter::Me.targets(PlayerId(1), &c), None);
    assert_eq!(BuffTargetFilter::EntityFilter(towers_of_allies()).targets(PlayerId(1), &c), Some(vec![0, 4]));
    assert_eq!(BuffTargetFilter::OnSpawn(towers_of_allies()).targets(PlayerId(1), &c), Some(vec![4]));
    let cond = SelfBuffCondition::EntityFilter(towers_of_allies());
    assert_eq!(cond.is_met(PlayerId(1), &c), 2);
    assert_eq!(cond._is_met(PlayerId(1), &c), 2);
    assert_eq!(cond.is_met(PlayerId(2), &c), 1);
}

#[test]
fn messages_and_acknowledgements() {
    let m = new_message(7u32, true);
    assert!(matches!(m, Message::Ack((_, 7))));
    assert!(matches!(new_message(8u32, false), Message::NoAck(8)));
    assert_eq!(resend_decision(&m, true), ResendDecision::Wait);
    assert_eq!(resend_decision(&m, false), ResendDecision::SendAndKeep);
    assert_eq!(resend_decision(&Message::NoAck(1u32), false), ResendDecision::SendAndDrop);
    let mut queue: Vec<(Message<u32>, &str, Option<u8>)> = vec![
        (Message::Ack((AckId(1), 10)), "a", None),
        (Message::NoAck(11), "b", None),
        (Message::Ack((AckId(2), 12)), "c", Some(3)),
    ];
    remove_acknowledged(&mut queue, AckId(1));
    assert_eq!(queue.len(), 1);
    assert!(matches!(queue[0], (Message::Ack((AckId(2), 12)), "c", Some(3))));
    match on_receive(Message::Ack((AckId(4), 13u32))) {
        ReceiveAction::Deliver { content, reply } => {
            assert_eq!(content, 13);
            assert_eq!(reply, Some(AckId(4)));
        }
        _ => panic!("expected a delivery"),
    }
    assert!(matches!(on_receive(Message::<u32>::AckReply(AckId(5))), ReceiveAction::Acknowledged(AckId(5))));
    assert!(matches!(on_receive(Message::NoAck(1u32)), ReceiveAction::Deliver { content: 1, reply: None }));
}
