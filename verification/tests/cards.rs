use common::card::{Card, CardInstance, EntityRequirement, PlayFnKind};
use common::entity::EntityTag;
use common::component_attack::{AttackVariant, TargetPool};
use common::entity_blueprint::{AttackPace, AttackProfile, EntityBlueprint, WalkSpeed};
use common::hand::Hand;
use common::ids::CardInstanceId;
use common::play_target::PlayTargetKind;
use common::textures::SpriteId;
use common::world::Zoning;

#[test]
fn card_data_of_tower() {
    let data = Card::Tower.get_card_data();
    assert_eq!(data.name, "Tower");
    assert_eq!(data.energy_cost, 3);
    assert_eq!(data.card_art_path, "tower.jpg");
    assert_eq!(data.description, "[Ranged]");
    assert_eq!(data.attack, Some(20));
    assert_eq!(data.health, Some(500));
    assert_eq!(data.play_fn, PlayFnKind::BuildingLocation(Zoning::Normal));
}

#[test]
fn card_data_of_spells_and_units() {
    let meteor = Card::Meteor.get_card_data();
    assert_eq!(meteor.energy_cost, 8);
    assert_eq!(meteor.attack, None);
    assert_eq!(meteor.health, None);
    assert_eq!(meteor.play_fn, PlayFnKind::Entity(EntityRequirement::Tower));
    let spy = Card::Spy.get_card_data();
    assert_eq!(spy.description, "Will not be seen\nby the first\n2 enemies it passes");
    assert_eq!(spy.attack, Some(20));
    assert_eq!(spy.health, Some(200));
    assert_eq!(spy.play_fn, PlayFnKind::UnitSpawnPoint);
    let farm = Card::Farm.get_card_data();
    assert_eq!(farm.play_fn, PlayFnKind::BuildingLocation(Zoning::Commerce));
    assert_eq!(farm.attack, None);
    assert_eq!(farm.health, Some(200));
    assert_eq!(Card::LightningStrike.get_card_data().play_fn, PlayFnKind::WorldPos);
    assert_eq!(Card::Dragon.energy_cost(), 7);
    assert_eq!(Card::SmallCriminal.energy_cost(), 1);
}

#[test]
fn card_texture_path() {
    assert_eq!(Card::Tower.get_texture_path(), "assets/cards/Tower.png");
    assert_eq!(Card::HomesickWarrior.get_texture_path(), "assets/cards/Homesick Warrior.png");
}

#[test]
fn card_iter_lists_each_card_once() {
    let cards = Card::iter();
    assert_eq!(cards.len(), 26);
    assert_eq!(cards[0], Card::Tower);
    assert_eq!(cards[25], Card::Meteor);
    for i in 0..cards.len() {
        for j in 0..i {
            assert_ne!(cards[i], cards[j]);
        }
    }
    for card in cards.iter() {
        let cost = card.energy_cost();
        assert!((1..=8).contains(&cost));
    }
}

#[test]
fn play_target_validity() {
    let tower = Card::Tower.get_card_data().play_fn;
    assert!(!tower.building_location_is_invalid(Zoning::Normal));
    assert!(tower.building_location_is_invalid(Zoning::Commerce));
    let farm = Card::Farm.get_card_data().play_fn;
    assert!(farm.building_location_is_invalid(Zoning::Normal));
    assert!(!farm.building_location_is_invalid(Zoning::Commerce));
    let meteor = Card::Meteor.get_card_data().play_fn;
    assert!(!meteor.entity_is_invalid(Some((EntityTag::Tower, true))));
    assert!(meteor.entity_is_invalid(Some((EntityTag::Unit, true))));
    assert!(meteor.entity_is_invalid(None));
    let aim = Card::SteadyAim.get_card_data().play_fn;
    assert!(!aim.entity_is_invalid(Some((EntityTag::Unit, true))));
    assert!(aim.entity_is_invalid(Some((EntityTag::Unit, false))));
    assert!(aim.entity_is_invalid(None));
    let direct = Card::DirectDamage.get_card_data().play_fn;
    assert!(!direct.entity_is_invalid(None));
}

#[test]
fn blueprint_stats() {
    assert_eq!(EntityBlueprint::Tower.get_health(), Some(500));
    assert_eq!(EntityBlueprint::Tower.get_attack(), Some(20));
    assert_eq!(EntityBlueprint::Wall.get_health(), Some(1000));
    assert_eq!(EntityBlueprint::Wall.get_attack(), None);
    assert_eq!(EntityBlueprint::Base.get_health(), Some(2000));
    assert_eq!(EntityBlueprint::OldSwordMaster.get_attack(), Some(50));
    assert_eq!(EntityBlueprint::Farm.sprite_id(), SpriteId::BuildingFarm);
    assert_eq!(EntityBlueprint::Dragon.attack_damages(), vec![40]);
    let all = EntityBlueprint::iter();
    assert_eq!(all.len(), 21);
    assert_eq!(all[0], EntityBlueprint::BasicBuilder);
    assert_eq!(all[20], EntityBlueprint::Base);
    for blueprint in all.iter() {
        assert!(blueprint.get_health().unwrap() > 0);
        assert!(blueprint.attack_damages().len() <= 1);
    }
}

fn instance(id: u64, card: Card) -> CardInstance {
    CardInstance { id: CardInstanceId(id), card }
}

fn sorted_cards(v: &[CardInstance]) -> Vec<u64> {
    let mut ids: Vec<u64> = v.iter().map(|c| c.id.0).collect();
    ids.sort();
    ids
}

#[test]
fn new_hand_holds_shuffled_deck() {
    let hand = Hand::new(vec![Card::Tower, Card::Spy, Card::Spy, Card::Meteor]);
    assert_eq!(hand.energy, 0);
    assert!(hand.cards.is_empty());
    assert!(hand.played.is_empty());
    assert_eq!(hand.deck.len(), 4);
    let mut cards: Vec<String> = hand.deck.iter().map(|c| format!("{:?}", c.card)).collect();
    cards.sort();
    assert_eq!(cards, vec!["Meteor", "Spy", "Spy", "Tower"]);
}

#[test]
fn draw_takes_last_card_of_deck() {
    let mut hand = Hand {
        energy: 0,
        cards: vec![],
        deck: vec![instance(1, Card::Wall), instance(2, Card::Farm)],
        played: vec![],
    };
    let drawn = hand.draw();
    assert_eq!(drawn, Some(instance(2, Card::Farm)));
    assert_eq!(hand.cards, vec![instance(2, Card::Farm)]);
    assert_eq!(hand.deck, vec![instance(1, Card::Wall)]);
}

#[test]
fn draw_refills_deck_from_played() {
    let mut hand = Hand {
        energy: 3,
        cards: vec![instance(9, Card::Tower)],
        deck: vec![],
        played: vec![instance(1, Card::Wall), instance(2, Card::Farm), instance(3, Card::Spy)],
    };
    let drawn = hand.draw().unwrap();
    assert!(hand.played.is_empty());
    assert_eq!(hand.deck.len(), 2);
    assert_eq!(hand.cards.len(), 2);
    assert_eq!(hand.cards[1], drawn);
    let mut all = hand.deck.clone();
    all.push(drawn);
    assert_eq!(sorted_cards(&all), vec![1, 2, 3]);
    assert_eq!(hand.energy, 3);
}

#[test]
fn draw_with_nothing_left_draws_nothing() {
    let mut hand = Hand { energy: 0, cards: vec![], deck: vec![], played: vec![] };
    assert_eq!(hand.draw(), None);
    assert!(hand.cards.is_empty());
}

#[test]
fn draw_stops_at_full_hand() {
    let mut hand = Hand {
        energy: 0,
        cards: (0..10).map(|i| instance(i, Card::Wall)).collect(),
        deck: vec![instance(100, Card::Tower)],
        played: vec![],
    };
    assert_eq!(hand.draw(), None);
    assert_eq!(hand.cards.len(), 10);
    assert_eq!(hand.deck.len(), 1);
}

#[test]
fn play_pays_energy_and_moves_card() {
    let mut hand = Hand {
        energy: 5,
        cards: vec![instance(1, Card::Wall), instance(2, Card::Tower), instance(3, Card::Meteor)],
        deck: vec![],
        played: vec![],
    };
    assert_eq!(hand.try_play(CardInstanceId(2)), Some(Card::Tower));
    assert_eq!(hand.energy, 2);
    assert_eq!(hand.cards, vec![instance(1, Card::Wall), instance(3, Card::Meteor)]);
    assert_eq!(hand.played, vec![instance(2, Card::Tower)]);
    // too expensive
    assert_eq!(hand.try_play(CardInstanceId(3)), None);
    assert_eq!(hand.energy, 2);
    assert_eq!(hand.cards.len(), 2);
    // not in hand
    assert_eq!(hand.try_play_(CardInstanceId(42)), None);
    assert_eq!(hand.try_play_(CardInstanceId(1)), Some(Card::Wall));
    assert_eq!(hand.energy, 0);
    assert_eq!(hand.played.len(), 2);
}

#[test]
fn energy_is_capped() {
    let mut hand = Hand { energy: 9, cards: vec![], deck: vec![], played: vec![] };
    hand.gain_energy();
    assert_eq!(hand.energy, 10);
    hand.gain_energy();
    assert_eq!(hand.energy, 10);
}

#[test]
fn cards_are_conserved_over_draws_and_plays() {
    let mut hand = Hand::new(vec![Card::Wall, Card::SmallCriminal, Card::ElfWarrior]);
    let mut ids = sorted_cards(&hand.deck);
    for _ in 0..3 {
        hand.draw();
    }
    hand.energy = 10;
    let first = hand.cards[0].id;
    hand.try_play(first);
    hand.draw();
    let mut all = hand.cards.clone();
    all.extend(hand.deck.iter().cloned());
    all.extend(hand.played.iter().cloned());
    let got = sorted_cards(&all);
    ids.sort();
    assert_eq!(got, ids);
}

#[test]
fn play_fn_kind_accepts_only_its_target_kind() {
    let tower = Card::Tower.get_card_data().play_fn;
    assert!(tower.accepts(PlayTargetKind::BuildingLocation));
    assert!(!tower.accepts(PlayTargetKind::WorldPos));
    let meteor = Card::Meteor.get_card_data().play_fn;
    assert!(meteor.accepts(PlayTargetKind::Entity));
    assert!(!meteor.accepts(PlayTargetKind::UnitSpawnpoint));
    let knight = Card::RecklessKnight.get_card_data().play_fn;
    assert!(knight.accepts(PlayTargetKind::UnitSpawnpoint));
    assert!(!knight.accepts(PlayTargetKind::Entity));
    let strike = Card::LightningStrike.get_card_data().play_fn;
    assert!(strike.accepts(PlayTargetKind::WorldPos));
    assert!(!strike.accepts(PlayTargetKind::BuildingLocation));
}

#[test]
fn cards_bring_their_blueprints() {
    assert_eq!(Card::Tower.blueprint(), Some(EntityBlueprint::Tower));
    assert_eq!(Card::Farm.blueprint(), Some(EntityBlueprint::Farm));
    assert_eq!(Card::Spy.blueprint(), Some(EntityBlueprint::Spy));
    assert_eq!(Card::Dragon.blueprint(), Some(EntityBlueprint::Dragon));
    assert_eq!(Card::IronMine.blueprint(), None);
    assert_eq!(Card::Meteor.blueprint(), None);
}

#[test]
fn blueprint_attack_and_walk_shapes() {
    assert_eq!(EntityBlueprint::ElfWarrior.attack_profile(), Some(AttackProfile::Ranged));
    assert_eq!(EntityBlueprint::ElfWarrior.attack_pace(), AttackPace::Fast);
    assert_eq!(EntityBlueprint::StreetCriminal.attack_pace(), AttackPace::Fast);
    assert_eq!(EntityBlueprint::Spy.attack_pace(), AttackPace::Default);
    assert_eq!(EntityBlueprint::Dragon.attack_profile(), Some(AttackProfile::Flying));
    assert_eq!(EntityBlueprint::Tower.attack_profile(), Some(AttackProfile::RangedTower));
    assert_eq!(EntityBlueprint::Wall.attack_profile(), None);
    assert_eq!(EntityBlueprint::Base.attack_profile(), None);
    assert_eq!(EntityBlueprint::BasicBuilder.attack_profile(), Some(AttackProfile::Melee));
    assert_eq!(EntityBlueprint::OldSwordMaster.walk_speed(), Some(WalkSpeed::VerySlow));
    assert_eq!(EntityBlueprint::DemonWolf.walk_speed(), Some(WalkSpeed::Fast));
    assert_eq!(EntityBlueprint::AirBalloon.walk_speed(), Some(WalkSpeed::Slow));
    assert_eq!(EntityBlueprint::Governor.walk_speed(), Some(WalkSpeed::Default));
    assert_eq!(EntityBlueprint::SpawnPoint.walk_speed(), None);
    assert_eq!(AttackProfile::RangedTower.variant(), AttackVariant::RangedAttack);
    assert_eq!(AttackProfile::Flying.variant(), AttackVariant::MeleeAttack);
    assert_eq!(AttackProfile::RangedTower.target_tags(), vec![EntityTag::Unit, EntityTag::FlyingUnit]);
    assert_eq!(
        AttackProfile::Flying.target_tags(),
        vec![EntityTag::Base, EntityTag::Tower, EntityTag::FlyingUnit]
    );
    assert_eq!(AttackProfile::Melee.target_pool(), TargetPool::Enemies);
}
