use vstd::prelude::*;
use vstd::string::StringExecFns;

use crate::entity::EntityTag;
use crate::component_spy::Spy;
use crate::entity_blueprint::{
    EntityBlueprint, blueprint_is_protector, blueprint_max_health, blueprint_spawn_point,
    blueprint_spy_capacity, blueprint_tag, spec_get_attack,
};
use crate::ids::{CardInstanceId, PlayerId};
use crate::play_target::PlayTargetKind;
use crate::world::Zoning;

verus! {

/// The cards of the game.
#[derive(Hash, Debug, Clone, Copy, Eq, PartialEq, Structural)]
pub enum Card {
    Tower,
    SmallTower,
    Watchtower,
    Wall,
    Farm,
    TradingPlace,
    IronMine,
    SpawnPoint,
    HomesickWarrior,
    ElfWarrior,
    OldSwordMaster,
    DemonWolf,
    SmallCriminal,
    StreetCriminal,
    Spy,
    RecklessKnight,
    Governor,
    WarEagle,
    AirBalloon,
    Dragon,
    DirectDamage,
    LightningStrike,
    ReinforcedDoors,
    HigherMotivation,
    SteadyAim,
    Meteor,
}

/// One copy of a card, as it moves between deck, hand and the played pile.
#[derive(Debug, Clone, Copy, PartialEq, Eq, Structural)]
pub struct CardInstance {
    pub id: CardInstanceId,
    pub card: Card,
}

/// What an entity played on must be for an entity card to take it.
#[derive(Debug, Clone, Copy, PartialEq, Eq, Structural)]
pub enum EntityRequirement {
    AnyEntity,
    RangedAttacker,
    Tower,
}

/// The kind of target a card is played on, with what makes a target of that kind invalid.
#[derive(Debug, Clone, Copy, PartialEq, Eq, Structural)]
pub enum PlayFnKind {
    WorldPos,
    UnitSpawnPoint,
    /// A building location of the given zoning.
    BuildingLocation(Zoning),
    Entity(EntityRequirement),
}

/// What a card shows and how it is played.
pub struct CardData {
    pub name: &'static str,
    pub energy_cost: i32,
    pub play_fn: PlayFnKind,
    pub description: &'static str,
    pub card_art_path: &'static str,
    pub attack: Option<i32>,
    pub health: Option<i32>,
}

/// The name printed on a card.
pub open spec fn card_name(card: Card) -> Seq<char> {
    match card {
        Card::Tower => "Tower"@,
        Card::SmallTower => "Small Tower"@,
        Card::Watchtower => "Watchtower"@,
        Card::Wall => "Wall"@,
        Card::Farm => "Farm"@,
        Card::TradingPlace => "Trading Place"@,
        Card::IronMine => "Iron Mine"@,
        Card::SpawnPoint => "Spawn Point"@,
        Card::HomesickWarrior => "Homesick Warrior"@,
        Card::ElfWarrior => "Elf Warrior"@,
        Card::OldSwordMaster => "Old Sword Master"@,
        Card::DemonWolf => "Demon Wolf"@,
        Card::SmallCriminal => "Small Criminal"@,
        Card::StreetCriminal => "Street Criminal"@,
        Card::Spy => "Spy"@,
        Card::RecklessKnight => "Reckless Knight"@,
        Card::Governor => "Governor"@,
        Card::WarEagle => "War Eagle"@,
        Card::AirBalloon => "Air Balloon"@,
        Card::Dragon => "Dragon"@,
        Card::DirectDamage => "Direct Damage"@,
        Card::LightningStrike => "Lightning Strike"@,
        Card::ReinforcedDoors => "Reinforced Doors"@,
        Card::HigherMotivation => "Higher Motivation"@,
        Card::SteadyAim => "Steady Aim"@,
        Card::Meteor => "Meteor"@,
    }
}

/// The energy a card costs to play.
pub open spec fn card_energy_cost(card: Card) -> i32 {
    match card {
        Card::Tower => 3,
        Card::SmallTower => 2,
        Card::Watchtower => 5,
        Card::Wall => 2,
        Card::Farm => 4,
        Card::TradingPlace => 4,
        Card::IronMine => 4,
        Card::SpawnPoint => 3,
        Card::HomesickWarrior => 3,
        Card::ElfWarrior => 2,
        Card::OldSwordMaster => 4,
        Card::DemonWolf => 3,
        Card::SmallCriminal => 1,
        Card::StreetCriminal => 2,
        Card::Spy => 3,
        Card::RecklessKnight => 2,
        Card::Governor => 4,
        Card::WarEagle => 3,
        Card::AirBalloon => 5,
        Card::Dragon => 7,
        Card::DirectDamage => 1,
        Card::LightningStrike => 3,
        Card::ReinforcedDoors => 2,
        Card::HigherMotivation => 3,
        Card::SteadyAim => 2,
        Card::Meteor => 8,
    }
}

/// The file of a card's art.
pub open spec fn card_art(card: Card) -> Seq<char> {
    match card {
        Card::Tower => "tower.jpg"@,
        Card::SmallTower => "small_tower.jpg"@,
        Card::Watchtower => "watchtower.jpg"@,
        Card::Wall => "wall.jpg"@,
        Card::Farm => "farm.jpg"@,
        Card::TradingPlace => "trading_place.jpg"@,
        Card::IronMine => "iron_mine.jpg"@,
        Card::SpawnPoint => "spawn_point.jpg"@,
        Card::HomesickWarrior => "homesick_warrior.jpg"@,
        Card::ElfWarrior => "elf_warrior.jpg"@,
        Card::OldSwordMaster => "old_sword_master.jpg"@,
        Card::DemonWolf => "demon_wolf.jpg"@,
        Card::SmallCriminal => "small_criminal.jpg"@,
        Card::StreetCriminal => "street_criminal.jpg"@,
        Card::Spy => "spy.jpg"@,
        Card::RecklessKnight => "reckless_knight.jpg"@,
        Card::Governor => "governor.jpg"@,
        Card::WarEagle => "war_eagle.jpg"@,
        Card::AirBalloon => "air_balloon.jpg"@,
        Card::Dragon => "dragon.jpg"@,
        Card::DirectDamage => "direct_damage.jpg"@,
        Card::LightningStrike => "lightning_strike.jpg"@,
        Card::ReinforcedDoors => "reinforced_doors.jpg"@,
        Card::HigherMotivation => "higher_motivation.jpg"@,
        Card::SteadyAim => "steady_aim.jpg"@,
        Card::Meteor => "meteor.jpg"@,
    }
}

/// The rules text printed on a card.
pub open spec fn card_description(card: Card) -> Seq<char> {
    match card {
        Card::Tower => "[Ranged]"@,
        Card::SmallTower => "[Ranged] Gets 20% higher attack speed for each nearby tower"@,
        Card::Watchtower => "[Ranged] Nearby ranged attacks have double range"@,
        Card::Wall => ""@,
        Card::Farm => "Increases drawing speed by 40%"@,
        Card::TradingPlace => "Increases energy generation by 40%"@,
        Card::IronMine => "Towers get +500 health when they are built"@,
        Card::SpawnPoint => "You may spawn units\nfrom this building"@,
        Card::HomesickWarrior => "[Protector]"@,
        Card::ElfWarrior => "[Fast attacking], [Ranged]"@,
        Card::OldSwordMaster => "[Very slow moving]"@,
        Card::DemonWolf => "[Fast moving]"@,
        Card::SmallCriminal => "[Fast moving]"@,
        Card::StreetCriminal => "[Fast attacking]"@,
        Card::Spy => "Will not be seen\nby the first\n2 enemies it passes"@,
        Card::RecklessKnight => "[Fast moving]"@,
        Card::Governor => "Deals 5 additional damage\nfor each tower\nyou control"@,
        Card::WarEagle => "[Flying]"@,
        Card::AirBalloon => "[Flying]"@,
        Card::Dragon => "[Flying]"@,
        Card::DirectDamage => "Deal 150 damage\nto a single unit or building"@,
        Card::LightningStrike => "Deal 150 damage\nto all units and buildings\nin a small area"@,
        Card::ReinforcedDoors => "All your towers\nget +200 health"@,
        Card::HigherMotivation => "All your units\nget +50% attack speed for 10 seconds"@,
        Card::SteadyAim => "Give a ranged unit\n+50% attack damage"@,
        Card::Meteor => "Destroy a tower"@,
    }
}

/// The kind of target a card is played on.
pub open spec fn card_play_fn(card: Card) -> PlayFnKind {
    match card {
        Card::Tower => PlayFnKind::BuildingLocation(Zoning::Normal),
        Card::SmallTower => PlayFnKind::BuildingLocation(Zoning::Normal),
        Card::Watchtower => PlayFnKind::BuildingLocation(Zoning::Normal),
        Card::Wall => PlayFnKind::BuildingLocation(Zoning::Normal),
        Card::Farm => PlayFnKind::BuildingLocation(Zoning::Commerce),
        Card::TradingPlace => PlayFnKind::BuildingLocation(Zoning::Commerce),
        Card::IronMine => PlayFnKind::BuildingLocation(Zoning::Commerce),
        Card::SpawnPoint => PlayFnKind::BuildingLocation(Zoning::Normal),
        Card::HomesickWarrior => PlayFnKind::UnitSpawnPoint,
        Card::ElfWarrior => PlayFnKind::UnitSpawnPoint,
        Card::OldSwordMaster => PlayFnKind::UnitSpawnPoint,
        Card::DemonWolf => PlayFnKind::UnitSpawnPoint,
        Card::SmallCriminal => PlayFnKind::UnitSpawnPoint,
        Card::StreetCriminal => PlayFnKind::UnitSpawnPoint,
        Card::Spy => PlayFnKind::UnitSpawnPoint,
        Card::RecklessKnight => PlayFnKind::UnitSpawnPoint,
        Card::Governor => PlayFnKind::UnitSpawnPoint,
        Card::WarEagle => PlayFnKind::UnitSpawnPoint,
        Card::AirBalloon => PlayFnKind::UnitSpawnPoint,
        Card::Dragon => PlayFnKind::UnitSpawnPoint,
        Card::DirectDamage => PlayFnKind::Entity(EntityRequirement::AnyEntity),
        Card::LightningStrike => PlayFnKind::WorldPos,
        Card::ReinforcedDoors => PlayFnKind::WorldPos,
        Card::HigherMotivation => PlayFnKind::WorldPos,
        Card::SteadyAim => PlayFnKind::Entity(EntityRequirement::RangedAttacker),
        Card::Meteor => PlayFnKind::Entity(EntityRequirement::Tower),
    }
}

/// The blueprint whose attack and health a card shows, if it shows any.
pub open spec fn card_stats_blueprint(card: Card) -> Option<EntityBlueprint> {
    match card {
        Card::Tower => Some(EntityBlueprint::Tower),
        Card::SmallTower => Some(EntityBlueprint::SmallTower),
        Card::Watchtower => Some(EntityBlueprint::Watchtower),
        Card::Wall => Some(EntityBlueprint::Wall),
        Card::Farm => Some(EntityBlueprint::Farm),
        Card::TradingPlace => Some(EntityBlueprint::TradingPlace),
        Card::IronMine => None,
        Card::SpawnPoint => Some(EntityBlueprint::SpawnPoint),
        Card::HomesickWarrior => Some(EntityBlueprint::HomesickWarrior),
        Card::ElfWarrior => Some(EntityBlueprint::ElfWarrior),
        Card::OldSwordMaster => Some(EntityBlueprint::OldSwordMaster),
        Card::DemonWolf => Some(EntityBlueprint::DemonWolf),
        Card::SmallCriminal => Some(EntityBlueprint::SmallCriminal),
        Card::StreetCriminal => Some(EntityBlueprint::StreetCriminal),
        Card::Spy => Some(EntityBlueprint::Spy),
        Card::RecklessKnight => Some(EntityBlueprint::RecklessKnight),
        Card::Governor => Some(EntityBlueprint::Governor),
        Card::WarEagle => Some(EntityBlueprint::WarEagle),
        Card::AirBalloon => Some(EntityBlueprint::AirBalloon),
        Card::Dragon => Some(EntityBlueprint::Dragon),
        Card::DirectDamage => None,
        Card::LightningStrike => None,
        Card::ReinforcedDoors => None,
        Card::HigherMotivation => None,
        Card::SteadyAim => None,
        Card::Meteor => None,
    }
}

/// The attack a card shows: that of the blueprint it stands for.
pub open spec fn card_attack(card: Card) -> Option<i32> {
    match card_stats_blueprint(card) {
        Some(blueprint) => spec_get_attack(blueprint),
        None => None,
    }
}

/// The health a card shows: that of the blueprint it stands for.
pub open spec fn card_health(card: Card) -> Option<i32> {
    match card_stats_blueprint(card) {
        Some(blueprint) => Some(blueprint_max_health(blueprint)),
        None => None,
    }
}

/// The cards in the order they are declared.
pub open spec fn all_cards() -> Seq<Card> {
    seq![Card::Tower, Card::SmallTower, Card::Watchtower, Card::Wall, Card::Farm, Card::TradingPlace, Card::IronMine, Card::SpawnPoint, Card::HomesickWarrior, Card::ElfWarrior, Card::OldSwordMaster, Card::DemonWolf, Card::SmallCriminal, Card::StreetCriminal, Card::Spy, Card::RecklessKnight, Card::Governor, Card::WarEagle, Card::AirBalloon, Card::Dragon, Card::DirectDamage, Card::LightningStrike, Card::ReinforcedDoors, Card::HigherMotivation, Card::SteadyAim, Card::Meteor]
}

/// The file of the picture of a card: its name under the card directory.
pub open spec fn card_texture_path(card: Card) -> Seq<char> {
    "assets/cards/"@ + card_name(card) + ".png"@
}

impl Card {
    /// Every card, each once, in declaration order.
    pub fn iter() -> (r: Vec<Card>)
        ensures
            r@ == all_cards(),
    {
        let mut r: Vec<Card> = Vec::new();
        r.push(Card::Tower);
        r.push(Card::SmallTower);
        r.push(Card::Watchtower);
        r.push(Card::Wall);
        r.push(Card::Farm);
        r.push(Card::TradingPlace);
        r.push(Card::IronMine);
        r.push(Card::SpawnPoint);
        r.push(Card::HomesickWarrior);
        r.push(Card::ElfWarrior);
        r.push(Card::OldSwordMaster);
        r.push(Card::DemonWolf);
        r.push(Card::SmallCriminal);
        r.push(Card::StreetCriminal);
        r.push(Card::Spy);
        r.push(Card::RecklessKnight);
        r.push(Card::Governor);
        r.push(Card::WarEagle);
        r.push(Card::AirBalloon);
        r.push(Card::Dragon);
        r.push(Card::DirectDamage);
        r.push(Card::LightningStrike);
        r.push(Card::ReinforcedDoors);
        r.push(Card::HigherMotivation);
        r.push(Card::SteadyAim);
        r.push(Card::Meteor);
        assert(r@ =~= all_cards());
        r
    }

    /// What the card shows and how it is played.
    pub fn get_card_data(&self) -> (r: CardData)
        ensures
            r.name@ == card_name(*self),
            r.energy_cost == card_energy_cost(*self),
            r.play_fn == card_play_fn(*self),
            r.description@ == card_description(*self),
            r.card_art_path@ == card_art(*self),
            r.attack == card_attack(*self),
            r.health == card_health(*self),
    {
        match self {
            Card::Tower => CardData {
                name: "Tower",
                energy_cost: 3,
                play_fn: PlayFnKind::BuildingLocation(Zoning::Normal),
                description: "[Ranged]",
                card_art_path: "tower.jpg",
                attack: EntityBlueprint::Tower.get_attack(),
                health: EntityBlueprint::Tower.get_health(),
            },
            Card::SmallTower => CardData {
                name: "Small Tower",
                energy_cost: 2,
                play_fn: PlayFnKind::BuildingLocation(Zoning::Normal),
                description: "[Ranged] Gets 20% higher attack speed for each nearby tower",
                card_art_path: "small_tower.jpg",
                attack: EntityBlueprint::SmallTower.get_attack(),
                health: EntityBlueprint::SmallTower.get_health(),
            },
            Card::Watchtower => CardData {
                name: "Watchtower",
                energy_cost: 5,
                play_fn: PlayFnKind::BuildingLocation(Zoning::Normal),
                description: "[Ranged] Nearby ranged attacks have double range",
                card_art_path: "watchtower.jpg",
                attack: EntityBlueprint::Watchtower.get_attack(),
                health: EntityBlueprint::Watchtower.get_health(),
            },
            Card::Wall => CardData {
                name: "Wall",
                energy_cost: 2,
                play_fn: PlayFnKind::BuildingLocation(Zoning::Normal),
                description: "",
                card_art_path: "wall.jpg",
                attack: EntityBlueprint::Wall.get_attack(),
                health: EntityBlueprint::Wall.get_health(),
            },
            Card::Farm => CardData {
                name: "Farm",
                energy_cost: 4,
                play_fn: PlayFnKind::BuildingLocation(Zoning::Commerce),
                description: "Increases drawing speed by 40%",
                card_art_path: "farm.jpg",
                attack: EntityBlueprint::Farm.get_attack(),
                health: EntityBlueprint::Farm.get_health(),
            },
            Card::TradingPlace => CardData {
                name: "Trading Place",
                energy_cost: 4,
                play_fn: PlayFnKind::BuildingLocation(Zoning::Commerce),
                description: "Increases energy generation by 40%",
                card_art_path: "trading_place.jpg",
                attack: EntityBlueprint::TradingPlace.get_attack(),
                health: EntityBlueprint::TradingPlace.get_health(),
            },
            Card::IronMine => CardData {
                name: "Iron Mine",
                energy_cost: 4,
                play_fn: PlayFnKind::BuildingLocation(Zoning::Commerce),
                description: "Towers get +500 health when they are built",
                card_art_path: "iron_mine.jpg",
                attack: None,
                health: None,
            },
            Card::SpawnPoint => CardData {
                name: "Spawn Point",
                energy_cost: 3,
                play_fn: PlayFnKind::BuildingLocation(Zoning::Normal),
                description: "You may spawn units\nfrom this building",
                card_art_path: "spawn_point.jpg",
                attack: EntityBlueprint::SpawnPoint.get_attack(),
                health: EntityBlueprint::SpawnPoint.get_health(),
            },
            Card::HomesickWarrior => CardData {
                name: "Homesick Warrior",
                energy_cost: 3,
                play_fn: PlayFnKind::UnitSpawnPoint,
                description: "[Protector]",
                card_art_path: "homesick_warrior.jpg",
                attack: EntityBlueprint::HomesickWarrior.get_attack(),
                health: EntityBlueprint::HomesickWarrior.get_health(),
            },
            Card::ElfWarrior => CardData {
                name: "Elf Warrior",
                energy_cost: 2,
                play_fn: PlayFnKind::UnitSpawnPoint,
                description: "[Fast attacking], [Ranged]",
                card_art_path: "elf_warrior.jpg",
                attack: EntityBlueprint::ElfWarrior.get_attack(),
                health: EntityBlueprint::ElfWarrior.get_health(),
            },
            Card::OldSwordMaster => CardData {
                name: "Old Sword Master",
                energy_cost: 4,
                play_fn: PlayFnKind::UnitSpawnPoint,
                description: "[Very slow moving]",
                card_art_path: "old_sword_master.jpg",
                attack: EntityBlueprint::OldSwordMaster.get_attack(),
                health: EntityBlueprint::OldSwordMaster.get_health(),
            },
            Card::DemonWolf => CardData {
                name: "Demon Wolf",
                energy_cost: 3,
                play_fn: PlayFnKind::UnitSpawnPoint,
                description: "[Fast moving]",
                card_art_path: "demon_wolf.jpg",
                attack: EntityBlueprint::DemonWolf.get_attack(),
                health: EntityBlueprint::DemonWolf.get_health(),
            },
            Card::SmallCriminal => CardData {
                name: "Small Criminal",
                energy_cost: 1,
                play_fn: PlayFnKind::UnitSpawnPoint,
                description: "[Fast moving]",
                card_art_path: "small_criminal.jpg",
                attack: EntityBlueprint::SmallCriminal.get_attack(),
                health: EntityBlueprint::SmallCriminal.get_health(),
            },
            Card::StreetCriminal => CardData {
                name: "Street Criminal",
                energy_cost: 2,
                play_fn: PlayFnKind::UnitSpawnPoint,
                description: "[Fast attacking]",
                card_art_path: "street_criminal.jpg",
                attack: EntityBlueprint::StreetCriminal.get_attack(),
                health: EntityBlueprint::StreetCriminal.get_health(),
            },
            Card::Spy => CardData {
                name: "Spy",
                energy_cost: 3,
                play_fn: PlayFnKind::UnitSpawnPoint,
                description: "Will not be seen\nby the first\n2 enemies it passes",
                card_art_path: "spy.jpg",
                attack: EntityBlueprint::Spy.get_attack(),
                health: EntityBlueprint::Spy.get_health(),
            },
            Card::RecklessKnight => CardData {
                name: "Reckless Knight",
                energy_cost: 2,
                play_fn: PlayFnKind::UnitSpawnPoint,
                description: "[Fast moving]",
                card_art_path: "reckless_knight.jpg",
                attack: EntityBlueprint::RecklessKnight.get_attack(),
                health: EntityBlueprint::RecklessKnight.get_health(),
            },
            Card::Governor => CardData {
                name: "Governor",
                energy_cost: 4,
                play_fn: PlayFnKind::UnitSpawnPoint,
                description: "Deals 5 additional damage\nfor each tower\nyou control",
                card_art_path: "governor.jpg",
                attack: EntityBlueprint::Governor.get_attack(),
                health: EntityBlueprint::Governor.get_health(),
            },
            Card::WarEagle => CardData {
                name: "War Eagle",
                energy_cost: 3,
                play_fn: PlayFnKind::UnitSpawnPoint,
                description: "[Flying]",
                card_art_path: "war_eagle.jpg",
                attack: EntityBlueprint::WarEagle.get_attack(),
                health: EntityBlueprint::WarEagle.get_health(),
            },
            Card::AirBalloon => CardData {
                name: "Air Balloon",
                energy_cost: 5,
                play_fn: PlayFnKind::UnitSpawnPoint,
                description: "[Flying]",
                card_art_path: "air_balloon.jpg",
                attack: EntityBlueprint::AirBalloon.get_attack(),
                health: EntityBlueprint::AirBalloon.get_health(),
            },
            Card::Dragon => CardData {
                name: "Dragon",
                energy_cost: 7,
                play_fn: PlayFnKind::UnitSpawnPoint,
                description: "[Flying]",
                card_art_path: "dragon.jpg",
                attack: EntityBlueprint::Dragon.get_attack(),
                health: EntityBlueprint::Dragon.get_health(),
            },
            Card::DirectDamage => CardData {
                name: "Direct Damage",
                energy_cost: 1,
                play_fn: PlayFnKind::Entity(EntityRequirement::AnyEntity),
                description: "Deal 150 damage\nto a single unit or building",
                card_art_path: "direct_damage.jpg",
                attack: None,
                health: None,
            },
            Card::LightningStrike => CardData {
                name: "Lightning Strike",
                energy_cost: 3,
                play_fn: PlayFnKind::WorldPos,
                description: "Deal 150 damage\nto all units and buildings\nin a small area",
                card_art_path: "lightning_strike.jpg",
                attack: None,
                health: None,
            },
            Card::ReinforcedDoors => CardData {
                name: "Reinforced Doors",
                energy_cost: 2,
                play_fn: PlayFnKind::WorldPos,
                description: "All your towers\nget +200 health",
                card_art_path: "reinforced_doors.jpg",
                attack: None,
                health: None,
            },
            Card::HigherMotivation => CardData {
                name: "Higher Motivation",
                energy_cost: 3,
                play_fn: PlayFnKind::WorldPos,
                description: "All your units\nget +50% attack speed for 10 seconds",
                card_art_path: "higher_motivation.jpg",
                attack: None,
                health: None,
            },
            Card::SteadyAim => CardData {
                name: "Steady Aim",
                energy_cost: 2,
                play_fn: PlayFnKind::Entity(EntityRequirement::RangedAttacker),
                description: "Give a ranged unit\n+50% attack damage",
                card_art_path: "steady_aim.jpg",
                attack: None,
                health: None,
            },
            Card::Meteor => CardData {
                name: "Meteor",
                energy_cost: 8,
                play_fn: PlayFnKind::Entity(EntityRequirement::Tower),
                description: "Destroy a tower",
                card_art_path: "meteor.jpg",
                attack: None,
                health: None,
            },
        }
    }

    /// The blueprint of the building or unit the card brings into play, if it brings one.
    pub fn blueprint(&self) -> (r: Option<EntityBlueprint>)
        ensures
            r == card_stats_blueprint(*self),
    {
        match self {
            Card::Tower => Some(EntityBlueprint::Tower),
            Card::SmallTower => Some(EntityBlueprint::SmallTower),
            Card::Watchtower => Some(EntityBlueprint::Watchtower),
            Card::Wall => Some(EntityBlueprint::Wall),
            Card::Farm => Some(EntityBlueprint::Farm),
            Card::TradingPlace => Some(EntityBlueprint::TradingPlace),
            Card::IronMine => None,
            Card::SpawnPoint => Some(EntityBlueprint::SpawnPoint),
            Card::HomesickWarrior => Some(EntityBlueprint::HomesickWarrior),
            Card::ElfWarrior => Some(EntityBlueprint::ElfWarrior),
            Card::OldSwordMaster => Some(EntityBlueprint::OldSwordMaster),
            Card::DemonWolf => Some(EntityBlueprint::DemonWolf),
            Card::SmallCriminal => Some(EntityBlueprint::SmallCriminal),
            Card::StreetCriminal => Some(EntityBlueprint::StreetCriminal),
            Card::Spy => Some(EntityBlueprint::Spy),
            Card::RecklessKnight => Some(EntityBlueprint::RecklessKnight),
            Card::Governor => Some(EntityBlueprint::Governor),
            Card::WarEagle => Some(EntityBlueprint::WarEagle),
            Card::AirBalloon => Some(EntityBlueprint::AirBalloon),
            Card::Dragon => Some(EntityBlueprint::Dragon),
            Card::DirectDamage => None,
            Card::LightningStrike => None,
            Card::ReinforcedDoors => None,
            Card::HigherMotivation => None,
            Card::SteadyAim => None,
            Card::Meteor => None,
        }
    }

    /// Whether the card, played over the whole board by `caster`, takes effect on an entity of
    /// `entity_owner` of kind `entity_tag`: Reinforced Doors strengthens the caster's towers and
    /// Higher Motivation spurs all the caster's units, flying ones too; no other card acts over the whole board.
    pub open spec fn spec_board_effect_applies(
        self,
        caster: PlayerId,
        entity_owner: PlayerId,
        entity_tag: EntityTag,
    ) -> bool {
        &&& entity_owner == caster
        &&& match self {
            Card::ReinforcedDoors => entity_tag == EntityTag::Tower,
            Card::HigherMotivation => entity_tag == EntityTag::Unit || entity_tag == EntityTag::FlyingUnit,
            _ => false,
        }
    }

    /// Whether the card, played over the whole board by `caster`, takes effect on an entity of
    /// `entity_owner` of kind `entity_tag`.
    pub fn board_effect_applies(&self, caster: PlayerId, entity_owner: PlayerId, entity_tag: EntityTag) -> (r:
        bool)
        ensures
            r == self.spec_board_effect_applies(caster, entity_owner, entity_tag),
    {
        if entity_owner != caster {
            return false;
        }
        match self {
            Card::ReinforcedDoors => entity_tag == EntityTag::Tower,
            Card::HigherMotivation => entity_tag == EntityTag::Unit || entity_tag == EntityTag::FlyingUnit,
            _ => false,
        }
    }

    /// The energy it costs to play the card.
    pub fn energy_cost(&self) -> (r: i32)
        ensures
            r == card_energy_cost(*self),
    {
        self.get_card_data().energy_cost
    }

    /// The file of the card's picture.
    pub fn get_texture_path(&self) -> (r: String)
        ensures
            r@ == card_texture_path(*self),
    {
        let data = self.get_card_data();
        let mut path = String::from_str("assets/cards/");
        path.append(data.name);
        path.append(".png");
        path
    }
}

impl PlayFnKind {
    /// Whether a card of this kind is played on a target of kind `target`; any other kind of
    /// target is an error.
    pub open spec fn spec_accepts(self, target: PlayTargetKind) -> bool {
        match self {
            PlayFnKind::WorldPos => target == PlayTargetKind::WorldPos,
            PlayFnKind::UnitSpawnPoint => target == PlayTargetKind::UnitSpawnpoint,
            PlayFnKind::BuildingLocation(_) => target == PlayTargetKind::BuildingLocation,
            PlayFnKind::Entity(_) => target == PlayTargetKind::Entity,
        }
    }

    /// Whether a card of this kind is played on a target of kind `target`.
    pub fn accepts(&self, target: PlayTargetKind) -> (r: bool)
        ensures
            r == self.spec_accepts(target),
    {
        match self {
            PlayFnKind::WorldPos => target == PlayTargetKind::WorldPos,
            PlayFnKind::UnitSpawnPoint => target == PlayTargetKind::UnitSpawnpoint,
            PlayFnKind::BuildingLocation(_) => target == PlayTargetKind::BuildingLocation,
            PlayFnKind::Entity(_) => target == PlayTargetKind::Entity,
        }
    }

    /// Whether a building location of zoning `zoning` is refused as the target of a card of this
    /// kind. Only building cards look at building locations; they take locations of their own
    /// zoning and refuse the others.
    pub open spec fn spec_building_location_is_invalid(self, zoning: Zoning) -> bool {
        match self {
            PlayFnKind::BuildingLocation(required) => zoning != required,
            _ => false,
        }
    }

    /// Whether a building location of zoning `zoning` is refused as the target.
    pub fn building_location_is_invalid(&self, zoning: Zoning) -> (r: bool)
        ensures
            r == self.spec_building_location_is_invalid(zoning),
    {
        match self {
            PlayFnKind::BuildingLocation(required) => zoning != *required,
            _ => false,
        }
    }

    /// Whether an entity target is refused by a card of this kind. `target` is the tag of the
    /// entity played on, and whether it carries a ranged attack, or nothing when no entity
    /// has the target's id.
    pub open spec fn spec_entity_is_invalid(self, target: Option<(EntityTag, bool)>) -> bool {
        match self {
            PlayFnKind::Entity(EntityRequirement::Tower) => match target {
                Some((tag, _)) => tag != EntityTag::Tower,
                None => true,
            },
            PlayFnKind::Entity(EntityRequirement::RangedAttacker) => match target {
                Some((_, ranged)) => !ranged,
                None => true,
            },
            _ => false,
        }
    }

    /// Whether an entity target is refused.
    pub fn entity_is_invalid(&self, target: Option<(EntityTag, bool)>) -> (r: bool)
        ensures
            r == self.spec_entity_is_invalid(target),
    {
        match self {
            PlayFnKind::Entity(EntityRequirement::Tower) => match target {
                Some((tag, _)) => tag != EntityTag::Tower,
                None => true,
            },
            PlayFnKind::Entity(EntityRequirement::RangedAttacker) => match target {
                Some((_, ranged)) => !ranged,
                None => true,
            },
            _ => false,
        }
    }
}

/// The card list names every card exactly once.
pub proof fn lemma_all_cards_complete(card: Card)
    ensures
        all_cards().contains(card),
        all_cards().no_duplicates(),
{
    let s = all_cards();
    assert(s.len() == 26);
    match card {
        Card::Tower => assert(s[0] == card),
        Card::SmallTower => assert(s[1] == card),
        Card::Watchtower => assert(s[2] == card),
        Card::Wall => assert(s[3] == card),
        Card::Farm => assert(s[4] == card),
        Card::TradingPlace => assert(s[5] == card),
        Card::IronMine => assert(s[6] == card),
        Card::SpawnPoint => assert(s[7] == card),
        Card::HomesickWarrior => assert(s[8] == card),
        Card::ElfWarrior => assert(s[9] == card),
        Card::OldSwordMaster => assert(s[10] == card),
        Card::DemonWolf => assert(s[11] == card),
        Card::SmallCriminal => assert(s[12] == card),
        Card::StreetCriminal => assert(s[13] == card),
        Card::Spy => assert(s[14] == card),
        Card::RecklessKnight => assert(s[15] == card),
        Card::Governor => assert(s[16] == card),
        Card::WarEagle => assert(s[17] == card),
        Card::AirBalloon => assert(s[18] == card),
        Card::Dragon => assert(s[19] == card),
        Card::DirectDamage => assert(s[20] == card),
        Card::LightningStrike => assert(s[21] == card),
        Card::ReinforcedDoors => assert(s[22] == card),
        Card::HigherMotivation => assert(s[23] == card),
        Card::SteadyAim => assert(s[24] == card),
        Card::Meteor => assert(s[25] == card),
    }
}

/// What the cards say of the units and buildings they bring holds of their blueprints: the spy
/// stays unseen by the first two enemy units it passes and is seen by the third, the homesick
/// warrior is a protector, units can be spawned from a spawn point, and the flying cards bring
/// flying units.
pub proof fn lemma_card_texts_hold(met_two: Set<u64>, third: u64)
    requires
        met_two.finite(),
        met_two.len() == 2,
        !met_two.contains(third),
    ensures
        card_stats_blueprint(Card::Spy) == Some(EntityBlueprint::Spy),
        blueprint_spy_capacity(EntityBlueprint::Spy) == Some(2u32),
        Spy::spec_is_hidden(met_two, 2),
        !Spy::spec_is_hidden(met_two.insert(third), 2),
        card_stats_blueprint(Card::HomesickWarrior) == Some(EntityBlueprint::HomesickWarrior),
        blueprint_is_protector(EntityBlueprint::HomesickWarrior),
        card_stats_blueprint(Card::SpawnPoint) == Some(EntityBlueprint::SpawnPoint),
        blueprint_spawn_point(EntityBlueprint::SpawnPoint),
        blueprint_tag(EntityBlueprint::WarEagle) == EntityTag::FlyingUnit,
        blueprint_tag(EntityBlueprint::AirBalloon) == EntityTag::FlyingUnit,
        blueprint_tag(EntityBlueprint::Dragon) == EntityTag::FlyingUnit,
{
}

/// Every card costs between one and eight energy, so a full energy pool of ten can always pay
/// for any single card.
pub proof fn lemma_energy_cost_bounds(card: Card)
    ensures
        1 <= card_energy_cost(card) <= 8,
{
}

} // verus!
