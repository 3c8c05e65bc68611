use common::card::Card;
use common::component_attack::{AttackVariant, TargetPool};
use common::component_buff_source::{BuffCondition, BuffRange, BuffTargetFilter};
use common::component_spy::Spy;
use common::entity::{EntityState, EntityTag};
use common::entity_blueprint::EntityBlueprint;
use common::game_loop::builder_step;
use common::game_state::SemiStaticGameState;
use common::hand::Hand;
use common::ids::{EntityId, PlayerId};
use common::outgoing_buff::OutgoingBuffType;
use common::textures::SpriteId;

#[test]
fn hand_affords_cards_it_has_energy_for() {
    let mut hand = Hand::new(vec![]);
    assert!(!hand.can_afford(Card::Tower));
    hand.energy = 3;
    assert!(hand.can_afford(Card::Tower));
    assert!(!hand.can_afford(Card::Watchtower));
    hand.energy = 8;
    assert!(hand.can_afford(Card::Meteor));
}

#[test]
fn builder_at_site_is_used_up() {
    let mut state = EntityState::Building;
    assert!(builder_step(&mut state, true, true));
    assert_eq!(state, EntityState::Dead);

    let mut away = EntityState::Building;
    assert!(!builder_step(&mut away, true, false));
    assert_eq!(away, EntityState::Building);

    let mut empty_handed = EntityState::Building;
    assert!(!builder_step(&mut empty_handed, false, true));
    assert_eq!(empty_handed, EntityState::Building);

    let mut moving = EntityState::Moving;
    assert!(!builder_step(&mut moving, true, true));
    assert_eq!(moving, EntityState::Moving);
}

#[test]
fn board_cards_affect_the_casters_entities_of_their_kind() {
    let me = PlayerId(1);
    let other = PlayerId(2);
    assert!(Card::ReinforcedDoors.board_effect_applies(me, me, EntityTag::Tower));
    assert!(!Card::ReinforcedDoors.board_effect_applies(me, other, EntityTag::Tower));
    assert!(!Card::ReinforcedDoors.board_effect_applies(me, me, EntityTag::Unit));
    assert!(Card::HigherMotivation.board_effect_applies(me, me, EntityTag::Unit));
    assert!(Card::HigherMotivation.board_effect_applies(me, me, EntityTag::FlyingUnit));
    assert!(!Card::HigherMotivation.board_effect_applies(me, me, EntityTag::Tower));
    assert!(!Card::HigherMotivation.board_effect_applies(me, other, EntityTag::Unit));
    assert!(!Card::LightningStrike.board_effect_applies(me, me, EntityTag::Unit));
}

#[test]
fn blueprint_buff_source_shapes() {
    let governor = EntityBlueprint::Governor.buff_sources();
    assert_eq!(governor.len(), 1);
    assert_eq!(governor[0].buff_type, OutgoingBuffType::AttackDamage);
    assert!(matches!(governor[0].target_filter, BuffTargetFilter::Me));
    match &governor[0].condition {
        BuffCondition::EntityFilter(filter) => {
            assert!(filter.range_filter.is_none());
            assert_eq!(filter.pool_filter, Some(TargetPool::Allies));
            let tags = filter.tag_filter.as_ref().unwrap();
            assert!(tags.is_set(&EntityTag::Tower));
            assert!(!tags.is_set(&EntityTag::Unit));
        }
        BuffCondition::AlwaysSingle => panic!("the governor counts towers"),
    }

    let small_tower = EntityBlueprint::SmallTower.buff_sources();
    assert_eq!(small_tower[0].buff_type, OutgoingBuffType::AttackSpeed);
    match &small_tower[0].condition {
        BuffCondition::EntityFilter(filter) => assert_eq!(filter.range_filter, Some(BuffRange::Default)),
        BuffCondition::AlwaysSingle => panic!("the small tower counts towers nearby"),
    }

    let watchtower = EntityBlueprint::Watchtower.buff_sources();
    assert_eq!(watchtower[0].buff_type, OutgoingBuffType::AttackRange);
    assert!(matches!(watchtower[0].condition, BuffCondition::AlwaysSingle));
    match &watchtower[0].target_filter {
        BuffTargetFilter::EntityFilter(filter) => {
            assert_eq!(filter.pool_filter, Some(TargetPool::Allies));
            assert!(filter.tag_filter.is_none());
        }
        _ => panic!("the watchtower buffs allies nearby"),
    }

    assert!(EntityBlueprint::Tower.buff_sources().is_empty());
}

#[test]
fn seen_spy_stays_seen_and_counts_each_unit_once() {
    let mut spy = Spy::new(1);
    assert!(spy.can_hide_from(EntityId(1), EntityTag::Unit));
    assert!(spy.can_hide_from(EntityId(1), EntityTag::Unit));
    assert_eq!(spy.is_hidden_from.len(), 1);
    assert!(!spy.can_hide_from(EntityId(2), EntityTag::Unit));
    assert!(!spy.can_hide_from(EntityId(1), EntityTag::Unit));
    assert!(!spy.can_hide_from(EntityId(3), EntityTag::Tower));
    assert!(!spy.is_hidden());
}

#[test]
fn sprite_files_are_distinct_pictures() {
    let all = [
        SpriteId::Empty, SpriteId::MapBackground, SpriteId::UnitArcher, SpriteId::UnitSwordsman,
        SpriteId::BuildingBase, SpriteId::BuildingTower, SpriteId::BuildingSpawnpoint,
        SpriteId::BuildingHut, SpriteId::BuildingTradingPlace, SpriteId::BuildingFarm,
        SpriteId::UnitBuilder, SpriteId::UnitPriest, SpriteId::UnitDemonPig,
        SpriteId::UnitRecklessKnight, SpriteId::UnitGovernor, SpriteId::UnitDynamiteMan,
        SpriteId::UnitSpy, SpriteId::UnitStreetCriminal, SpriteId::UnitSmallCriminal,
        SpriteId::UnitDemonWolf, SpriteId::UnitOldSwordMaster, SpriteId::UnitElfWarrior,
        SpriteId::UnitHomesickWarrior, SpriteId::UnitAirBalloon, SpriteId::UnitDragon,
        SpriteId::UnitWarEagle,
    ];
    for (i, a) in all.iter().enumerate() {
        assert!(a.to_path().ends_with(".png"));
        for b in all.iter().skip(i + 1) {
            assert_ne!(a.to_path(), b.to_path());
        }
    }
}

#[test]
fn range_buffs_reach_only_ranged_attacks() {
    assert!(OutgoingBuffType::AttackRange.reaches_attack(AttackVariant::RangedAttack));
    assert!(!OutgoingBuffType::AttackRange.reaches_attack(AttackVariant::MeleeAttack));
    assert!(OutgoingBuffType::AttackDamage.reaches_attack(AttackVariant::MeleeAttack));
    assert!(OutgoingBuffType::AttackSpeed.reaches_attack(AttackVariant::RangedAttack));
    assert!(!OutgoingBuffType::MovementSpeed.reaches_attack(AttackVariant::MeleeAttack));
}

#[test]
fn dirty_flag_reads_and_sets_the_field() {
    let mut state: SemiStaticGameState<(i32, i32)> = SemiStaticGameState::new();
    assert!(!state.dirty_flag());
    state.building_locations_mut();
    assert!(state.dirty_flag());
    state.set_dirty(false);
    assert!(!state.dirty_flag());
    assert!(!state.dirty);
}
