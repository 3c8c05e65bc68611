use vstd::prelude::*;

use crate::component_attack::{AttackVariant, TargetPool};
use crate::component_buff_source::{BuffCondition, BuffRange, BuffTargetFilter};
use crate::entity_filter::EntityFilter;
use crate::enum_flags::EnumFlags;
use crate::outgoing_buff::OutgoingBuffType;
use crate::entity::EntityTag;
use crate::textures::SpriteId;

verus! {

/// Every kind of entity a card or the game can put on the map.
#[derive(Debug, Clone, Copy, PartialEq, Eq, Structural)]
pub enum EntityBlueprint {
    BasicBuilder,
    HomesickWarrior,
    ElfWarrior,
    OldSwordMaster,
    DemonWolf,
    SmallCriminal,
    StreetCriminal,
    Spy,
    RecklessKnight,
    Governor,
    Dragon,
    WarEagle,
    AirBalloon,
    Tower,
    SmallTower,
    Watchtower,
    Wall,
    Farm,
    TradingPlace,
    SpawnPoint,
    Base,
}

/// The health an entity of this blueprint starts with, in whole points.
pub open spec fn blueprint_max_health(blueprint: EntityBlueprint) -> i32 {
    match blueprint {
        EntityBlueprint::BasicBuilder => 100,
        EntityBlueprint::HomesickWarrior => 200,
        EntityBlueprint::ElfWarrior => 100,
        EntityBlueprint::OldSwordMaster => 200,
        EntityBlueprint::DemonWolf => 200,
        EntityBlueprint::SmallCriminal => 200,
        EntityBlueprint::StreetCriminal => 200,
        EntityBlueprint::Spy => 200,
        EntityBlueprint::RecklessKnight => 100,
        EntityBlueprint::Governor => 300,
        EntityBlueprint::Dragon => 400,
        EntityBlueprint::WarEagle => 100,
        EntityBlueprint::AirBalloon => 400,
        EntityBlueprint::Tower => 500,
        EntityBlueprint::SmallTower => 300,
        EntityBlueprint::Watchtower => 500,
        EntityBlueprint::Wall => 1000,
        EntityBlueprint::Farm => 200,
        EntityBlueprint::TradingPlace => 200,
        EntityBlueprint::SpawnPoint => 400,
        EntityBlueprint::Base => 2000,
    }
}

/// The damage of each attack an entity of this blueprint carries, in whole points.
pub open spec fn blueprint_attack_damages(blueprint: EntityBlueprint) -> Seq<i32> {
    match blueprint {
        EntityBlueprint::BasicBuilder => seq![5i32],
        EntityBlueprint::HomesickWarrior => seq![20i32],
        EntityBlueprint::ElfWarrior => seq![10i32],
        EntityBlueprint::OldSwordMaster => seq![50i32],
        EntityBlueprint::DemonWolf => seq![20i32],
        EntityBlueprint::SmallCriminal => seq![10i32],
        EntityBlueprint::StreetCriminal => seq![10i32],
        EntityBlueprint::Spy => seq![20i32],
        EntityBlueprint::RecklessKnight => seq![30i32],
        EntityBlueprint::Governor => seq![20i32],
        EntityBlueprint::Dragon => seq![40i32],
        EntityBlueprint::WarEagle => seq![10i32],
        EntityBlueprint::AirBalloon => seq![20i32],
        EntityBlueprint::Tower => seq![20i32],
        EntityBlueprint::SmallTower => seq![10i32],
        EntityBlueprint::Watchtower => seq![10i32],
        EntityBlueprint::Wall => seq![],
        EntityBlueprint::Farm => seq![],
        EntityBlueprint::TradingPlace => seq![],
        EntityBlueprint::SpawnPoint => seq![],
        EntityBlueprint::Base => seq![],
    }
}

/// The sprite an entity of this blueprint is drawn with.
pub open spec fn blueprint_sprite(blueprint: EntityBlueprint) -> SpriteId {
    match blueprint {
        EntityBlueprint::BasicBuilder => SpriteId::UnitBuilder,
        EntityBlueprint::HomesickWarrior => SpriteId::UnitHomesickWarrior,
        EntityBlueprint::ElfWarrior => SpriteId::UnitElfWarrior,
        EntityBlueprint::OldSwordMaster => SpriteId::UnitOldSwordMaster,
        EntityBlueprint::DemonWolf => SpriteId::UnitDemonWolf,
        EntityBlueprint::SmallCriminal => SpriteId::UnitSmallCriminal,
        EntityBlueprint::StreetCriminal => SpriteId::UnitStreetCriminal,
        EntityBlueprint::Spy => SpriteId::UnitSpy,
        EntityBlueprint::RecklessKnight => SpriteId::UnitRecklessKnight,
        EntityBlueprint::Governor => SpriteId::UnitGovernor,
        EntityBlueprint::Dragon => SpriteId::UnitDragon,
        EntityBlueprint::WarEagle => SpriteId::UnitWarEagle,
        EntityBlueprint::AirBalloon => SpriteId::UnitAirBalloon,
        EntityBlueprint::Tower => SpriteId::BuildingTower,
        EntityBlueprint::SmallTower => SpriteId::BuildingTower,
        EntityBlueprint::Watchtower => SpriteId::BuildingTower,
        EntityBlueprint::Wall => SpriteId::BuildingTower,
        EntityBlueprint::Farm => SpriteId::BuildingFarm,
        EntityBlueprint::TradingPlace => SpriteId::BuildingTradingPlace,
        EntityBlueprint::SpawnPoint => SpriteId::BuildingHut,
        EntityBlueprint::Base => SpriteId::BuildingBase,
    }
}

/// The kind of entity a blueprint makes.
pub open spec fn blueprint_tag(blueprint: EntityBlueprint) -> EntityTag {
    match blueprint {
        EntityBlueprint::BasicBuilder => EntityTag::Unit,
        EntityBlueprint::HomesickWarrior => EntityTag::Unit,
        EntityBlueprint::ElfWarrior => EntityTag::Unit,
        EntityBlueprint::OldSwordMaster => EntityTag::Unit,
        EntityBlueprint::DemonWolf => EntityTag::Unit,
        EntityBlueprint::SmallCriminal => EntityTag::Unit,
        EntityBlueprint::StreetCriminal => EntityTag::Unit,
        EntityBlueprint::Spy => EntityTag::Unit,
        EntityBlueprint::RecklessKnight => EntityTag::Unit,
        EntityBlueprint::Governor => EntityTag::Unit,
        EntityBlueprint::Dragon => EntityTag::FlyingUnit,
        EntityBlueprint::WarEagle => EntityTag::FlyingUnit,
        EntityBlueprint::AirBalloon => EntityTag::FlyingUnit,
        EntityBlueprint::Tower => EntityTag::Tower,
        EntityBlueprint::SmallTower => EntityTag::Tower,
        EntityBlueprint::Watchtower => EntityTag::Tower,
        EntityBlueprint::Wall => EntityTag::Tower,
        EntityBlueprint::Farm => EntityTag::Tower,
        EntityBlueprint::TradingPlace => EntityTag::Tower,
        EntityBlueprint::SpawnPoint => EntityTag::Tower,
        EntityBlueprint::Base => EntityTag::Base,
    }
}

/// Whether units may be spawned from entities of this blueprint.
pub open spec fn blueprint_spawn_point(blueprint: EntityBlueprint) -> bool {
    blueprint == EntityBlueprint::SpawnPoint || blueprint == EntityBlueprint::Base
}

/// How many enemy units an entity of this blueprint can hide from, if it is a spy.
pub open spec fn blueprint_spy_capacity(blueprint: EntityBlueprint) -> Option<u32> {
    if blueprint == EntityBlueprint::Spy {
        Some(2)
    } else {
        None
    }
}

/// Whether an entity of this blueprint is a protector, guarding buildings along its path.
pub open spec fn blueprint_is_protector(blueprint: EntityBlueprint) -> bool {
    blueprint == EntityBlueprint::HomesickWarrior
}

/// What a card shows as attack for a blueprint: the damage of its single attack, and nothing
/// when it has no attack or several.
pub open spec fn spec_get_attack(blueprint: EntityBlueprint) -> Option<i32> {
    let damages = blueprint_attack_damages(blueprint);
    if damages.len() == 1 {
        Some(damages[0])
    } else {
        None
    }
}

/// What the attack of a blueprint is, apart from its damage: a melee attack on ground targets, a
/// ranged attack, the attack of a flying unit, or the ranged attack of a tower, which only shoots
/// at units.
#[derive(Debug, Clone, Copy, PartialEq, Eq, Structural)]
pub enum AttackProfile {
    Melee,
    Ranged,
    Flying,
    RangedTower,
}

/// How often an attack strikes.
#[derive(Debug, Clone, Copy, PartialEq, Eq, Structural)]
pub enum AttackPace {
    Default,
    Fast,
}

/// How fast a unit walks.
#[derive(Debug, Clone, Copy, PartialEq, Eq, Structural)]
pub enum WalkSpeed {
    VerySlow,
    Slow,
    Default,
    Fast,
}

/// The kinds of entity an attack of the profile can aim at, in a fixed order.
pub open spec fn profile_target_tags(profile: AttackProfile) -> Seq<EntityTag> {
    match profile {
        AttackProfile::Melee => seq![EntityTag::Base, EntityTag::Tower, EntityTag::Unit],
        AttackProfile::Ranged => seq![EntityTag::Base, EntityTag::Tower, EntityTag::Unit, EntityTag::FlyingUnit],
        AttackProfile::Flying => seq![EntityTag::Base, EntityTag::Tower, EntityTag::FlyingUnit],
        AttackProfile::RangedTower => seq![EntityTag::Unit, EntityTag::FlyingUnit],
    }
}

/// Whether an attack of the profile is a ranged attack, which shoots bullets.
pub open spec fn profile_variant(profile: AttackProfile) -> AttackVariant {
    match profile {
        AttackProfile::Ranged | AttackProfile::RangedTower => AttackVariant::RangedAttack,
        AttackProfile::Melee | AttackProfile::Flying => AttackVariant::MeleeAttack,
    }
}

impl AttackProfile {
    /// Melee or ranged.
    pub fn variant(&self) -> (r: AttackVariant)
        ensures
            r == profile_variant(*self),
    {
        match self {
            AttackProfile::Ranged | AttackProfile::RangedTower => AttackVariant::RangedAttack,
            AttackProfile::Melee | AttackProfile::Flying => AttackVariant::MeleeAttack,
        }
    }

    /// The kinds of entity the attack can aim at.
    pub fn target_tags(&self) -> (r: Vec<EntityTag>)
        ensures
            r@ == profile_target_tags(*self),
    {
        let r = match self {
            AttackProfile::Melee => vec![EntityTag::Base, EntityTag::Tower, EntityTag::Unit],
            AttackProfile::Ranged => vec![EntityTag::Base, EntityTag::Tower, EntityTag::Unit, EntityTag::FlyingUnit],
            AttackProfile::Flying => vec![EntityTag::Base, EntityTag::Tower, EntityTag::FlyingUnit],
            AttackProfile::RangedTower => vec![EntityTag::Unit, EntityTag::FlyingUnit],
        };
        assert(r@ =~= profile_target_tags(*self));
        r
    }

    /// The players whose entities the attack aims at: always the enemies.
    pub fn target_pool(&self) -> (r: TargetPool)
        ensures
            r == TargetPool::Enemies,
    {
        TargetPool::Enemies
    }
}

/// The attack profile of the blueprint, if it attacks.
pub open spec fn blueprint_attack_profile(blueprint: EntityBlueprint) -> Option<AttackProfile> {
    match blueprint {
        EntityBlueprint::BasicBuilder => Some(AttackProfile::Melee),
        EntityBlueprint::HomesickWarrior => Some(AttackProfile::Melee),
        EntityBlueprint::ElfWarrior => Some(AttackProfile::Ranged),
        EntityBlueprint::OldSwordMaster => Some(AttackProfile::Melee),
        EntityBlueprint::DemonWolf => Some(AttackProfile::Melee),
        EntityBlueprint::SmallCriminal => Some(AttackProfile::Melee),
        EntityBlueprint::StreetCriminal => Some(AttackProfile::Melee),
        EntityBlueprint::Spy => Some(AttackProfile::Melee),
        EntityBlueprint::RecklessKnight => Some(AttackProfile::Melee),
        EntityBlueprint::Governor => Some(AttackProfile::Melee),
        EntityBlueprint::Dragon => Some(AttackProfile::Flying),
        EntityBlueprint::WarEagle => Some(AttackProfile::Flying),
        EntityBlueprint::AirBalloon => Some(AttackProfile::Flying),
        EntityBlueprint::Tower => Some(AttackProfile::RangedTower),
        EntityBlueprint::SmallTower => Some(AttackProfile::RangedTower),
        EntityBlueprint::Watchtower => Some(AttackProfile::RangedTower),
        EntityBlueprint::Wall => None,
        EntityBlueprint::Farm => None,
        EntityBlueprint::TradingPlace => None,
        EntityBlueprint::SpawnPoint => None,
        EntityBlueprint::Base => None,
    }
}

/// How often the attack of the blueprint strikes.
pub open spec fn blueprint_attack_pace(blueprint: EntityBlueprint) -> AttackPace {
    match blueprint {
        EntityBlueprint::BasicBuilder => AttackPace::Default,
        EntityBlueprint::HomesickWarrior => AttackPace::Default,
        EntityBlueprint::ElfWarrior => AttackPace::Fast,
        EntityBlueprint::OldSwordMaster => AttackPace::Default,
        EntityBlueprint::DemonWolf => AttackPace::Default,
        EntityBlueprint::SmallCriminal => AttackPace::Default,
        EntityBlueprint::StreetCriminal => AttackPace::Fast,
        EntityBlueprint::Spy => AttackPace::Default,
        EntityBlueprint::RecklessKnight => AttackPace::Default,
        EntityBlueprint::Governor => AttackPace::Default,
        EntityBlueprint::Dragon => AttackPace::Default,
        EntityBlueprint::WarEagle => AttackPace::Default,
        EntityBlueprint::AirBalloon => AttackPace::Default,
        EntityBlueprint::Tower => AttackPace::Default,
        EntityBlueprint::SmallTower => AttackPace::Default,
        EntityBlueprint::Watchtower => AttackPace::Default,
        EntityBlueprint::Wall => AttackPace::Default,
        EntityBlueprint::Farm => AttackPace::Default,
        EntityBlueprint::TradingPlace => AttackPace::Default,
        EntityBlueprint::SpawnPoint => AttackPace::Default,
        EntityBlueprint::Base => AttackPace::Default,
    }
}

/// How fast entities of the blueprint walk; buildings do not.
pub open spec fn blueprint_walk_speed(blueprint: EntityBlueprint) -> Option<WalkSpeed> {
    match blueprint {
        EntityBlueprint::BasicBuilder => Some(WalkSpeed::Default),
        EntityBlueprint::HomesickWarrior => Some(WalkSpeed::Default),
        EntityBlueprint::ElfWarrior => Some(WalkSpeed::Default),
        EntityBlueprint::OldSwordMaster => Some(WalkSpeed::VerySlow),
        EntityBlueprint::DemonWolf => Some(WalkSpeed::Fast),
        EntityBlueprint::SmallCriminal => Some(WalkSpeed::Fast),
        EntityBlueprint::StreetCriminal => Some(WalkSpeed::Default),
        EntityBlueprint::Spy => Some(WalkSpeed::Default),
        EntityBlueprint::RecklessKnight => Some(WalkSpeed::Fast),
        EntityBlueprint::Governor => Some(WalkSpeed::Default),
        EntityBlueprint::Dragon => Some(WalkSpeed::Default),
        EntityBlueprint::WarEagle => Some(WalkSpeed::Default),
        EntityBlueprint::AirBalloon => Some(WalkSpeed::Slow),
        EntityBlueprint::Tower => None,
        EntityBlueprint::SmallTower => None,
        EntityBlueprint::Watchtower => None,
        EntityBlueprint::Wall => None,
        EntityBlueprint::Farm => None,
        EntityBlueprint::TradingPlace => None,
        EntityBlueprint::SpawnPoint => None,
        EntityBlueprint::Base => None,
    }
}

/// A buff an entity of a blueprint spreads: what it changes, how many times it is applied and who
/// receives it. Its amount is a matter of the game's arithmetic.
#[derive(Debug)]
pub struct BuffSourceShape {
    pub buff_type: OutgoingBuffType,
    pub condition: BuffCondition,
    pub target_filter: BuffTargetFilter,
}

/// The flag set holding only towers.
pub open spec fn towers_only() -> EnumFlags<EntityTag> {
    EnumFlags::<EntityTag>::spec_new().spec_set(EntityTag::Tower)
}

/// The buffs entities of the blueprint spread: the governor strengthens its attack once for each
/// allied tower, the small tower quickens its attack once for each allied tower nearby, and the
/// watchtower lengthens the attacks of every ally nearby.
pub open spec fn blueprint_buff_sources(blueprint: EntityBlueprint) -> Seq<BuffSourceShape> {
    match blueprint {
        EntityBlueprint::Governor => seq![
            BuffSourceShape {
                buff_type: OutgoingBuffType::AttackDamage,
                condition: BuffCondition::EntityFilter(
                    EntityFilter {
                        range_filter: None,
                        pool_filter: Some(TargetPool::Allies),
                        tag_filter: Some(towers_only()),
                    },
                ),
                target_filter: BuffTargetFilter::Me,
            },
        ],
        EntityBlueprint::SmallTower => seq![
            BuffSourceShape {
                buff_type: OutgoingBuffType::AttackSpeed,
                condition: BuffCondition::EntityFilter(
                    EntityFilter {
                        range_filter: Some(BuffRange::Default),
                        pool_filter: Some(TargetPool::Allies),
                        tag_filter: Some(towers_only()),
                    },
                ),
                target_filter: BuffTargetFilter::Me,
            },
        ],
        EntityBlueprint::Watchtower => seq![
            BuffSourceShape {
                buff_type: OutgoingBuffType::AttackRange,
                condition: BuffCondition::AlwaysSingle,
                target_filter: BuffTargetFilter::EntityFilter(
                    EntityFilter {
                        range_filter: Some(BuffRange::Default),
                        pool_filter: Some(TargetPool::Allies),
                        tag_filter: None,
                    },
                ),
            },
        ],
        _ => seq![],
    }
}

/// The blueprints in the order they are declared.
pub open spec fn all_blueprints() -> Seq<EntityBlueprint> {
    seq![EntityBlueprint::BasicBuilder, EntityBlueprint::HomesickWarrior, EntityBlueprint::ElfWarrior, EntityBlueprint::OldSwordMaster, EntityBlueprint::DemonWolf, EntityBlueprint::SmallCriminal, EntityBlueprint::StreetCriminal, EntityBlueprint::Spy, EntityBlueprint::RecklessKnight, EntityBlueprint::Governor, EntityBlueprint::Dragon, EntityBlueprint::WarEagle, EntityBlueprint::AirBalloon, EntityBlueprint::Tower, EntityBlueprint::SmallTower, EntityBlueprint::Watchtower, EntityBlueprint::Wall, EntityBlueprint::Farm, EntityBlueprint::TradingPlace, EntityBlueprint::SpawnPoint, EntityBlueprint::Base]
}

impl EntityBlueprint {
    /// Every blueprint, each once, in declaration order.
    pub fn iter() -> (r: Vec<EntityBlueprint>)
        ensures
            r@ == all_blueprints(),
    {
        let mut r: Vec<EntityBlueprint> = Vec::new();
        r.push(EntityBlueprint::BasicBuilder);
        r.push(EntityBlueprint::HomesickWarrior);
        r.push(EntityBlueprint::ElfWarrior);
        r.push(EntityBlueprint::OldSwordMaster);
        r.push(EntityBlueprint::DemonWolf);
        r.push(EntityBlueprint::SmallCriminal);
        r.push(EntityBlueprint::StreetCriminal);
        r.push(EntityBlueprint::Spy);
        r.push(EntityBlueprint::RecklessKnight);
        r.push(EntityBlueprint::Governor);
        r.push(EntityBlueprint::Dragon);
        r.push(EntityBlueprint::WarEagle);
        r.push(EntityBlueprint::AirBalloon);
        r.push(EntityBlueprint::Tower);
        r.push(EntityBlueprint::SmallTower);
        r.push(EntityBlueprint::Watchtower);
        r.push(EntityBlueprint::Wall);
        r.push(EntityBlueprint::Farm);
        r.push(EntityBlueprint::TradingPlace);
        r.push(EntityBlueprint::SpawnPoint);
        r.push(EntityBlueprint::Base);
        assert(r@ =~= all_blueprints());
        r
    }

    /// The starting health of the blueprint, in whole points.
    pub fn max_health(&self) -> (r: i32)
        ensures
            r == blueprint_max_health(*self),
    {
        match self {
            EntityBlueprint::BasicBuilder => 100,
            EntityBlueprint::HomesickWarrior => 200,
            EntityBlueprint::ElfWarrior => 100,
            EntityBlueprint::OldSwordMaster => 200,
            EntityBlueprint::DemonWolf => 200,
            EntityBlueprint::SmallCriminal => 200,
            EntityBlueprint::StreetCriminal => 200,
            EntityBlueprint::Spy => 200,
            EntityBlueprint::RecklessKnight => 100,
            EntityBlueprint::Governor => 300,
            EntityBlueprint::Dragon => 400,
            EntityBlueprint::WarEagle => 100,
            EntityBlueprint::AirBalloon => 400,
            EntityBlueprint::Tower => 500,
            EntityBlueprint::SmallTower => 300,
            EntityBlueprint::Watchtower => 500,
            EntityBlueprint::Wall => 1000,
            EntityBlueprint::Farm => 200,
            EntityBlueprint::TradingPlace => 200,
            EntityBlueprint::SpawnPoint => 400,
            EntityBlueprint::Base => 2000,
        }
    }

    /// The damage of each attack of the blueprint, in whole points.
    pub fn attack_damages(&self) -> (r: Vec<i32>)
        ensures
            r@ == blueprint_attack_damages(*self),
    {
        let r: Vec<i32> = match self {
            EntityBlueprint::BasicBuilder => vec![5],
            EntityBlueprint::HomesickWarrior => vec![20],
            EntityBlueprint::ElfWarrior => vec![10],
            EntityBlueprint::OldSwordMaster => vec![50],
            EntityBlueprint::DemonWolf => vec![20],
            EntityBlueprint::SmallCriminal => vec![10],
            EntityBlueprint::StreetCriminal => vec![10],
            EntityBlueprint::Spy => vec![20],
            EntityBlueprint::RecklessKnight => vec![30],
            EntityBlueprint::Governor => vec![20],
            EntityBlueprint::Dragon => vec![40],
            EntityBlueprint::WarEagle => vec![10],
            EntityBlueprint::AirBalloon => vec![20],
            EntityBlueprint::Tower => vec![20],
            EntityBlueprint::SmallTower => vec![10],
            EntityBlueprint::Watchtower => vec![10],
            EntityBlueprint::Wall => vec![],
            EntityBlueprint::Farm => vec![],
            EntityBlueprint::TradingPlace => vec![],
            EntityBlueprint::SpawnPoint => vec![],
            EntityBlueprint::Base => vec![],
        };
        assert(r@ =~= blueprint_attack_damages(*self));
        r
    }

    /// The sprite of the blueprint.
    pub fn sprite_id(&self) -> (r: SpriteId)
        ensures
            r == blueprint_sprite(*self),
    {
        match self {
            EntityBlueprint::BasicBuilder => SpriteId::UnitBuilder,
            EntityBlueprint::HomesickWarrior => SpriteId::UnitHomesickWarrior,
            EntityBlueprint::ElfWarrior => SpriteId::UnitElfWarrior,
            EntityBlueprint::OldSwordMaster => SpriteId::UnitOldSwordMaster,
            EntityBlueprint::DemonWolf => SpriteId::UnitDemonWolf,
            EntityBlueprint::SmallCriminal => SpriteId::UnitSmallCriminal,
            EntityBlueprint::StreetCriminal => SpriteId::UnitStreetCriminal,
            EntityBlueprint::Spy => SpriteId::UnitSpy,
            EntityBlueprint::RecklessKnight => SpriteId::UnitRecklessKnight,
            EntityBlueprint::Governor => SpriteId::UnitGovernor,
            EntityBlueprint::Dragon => SpriteId::UnitDragon,
            EntityBlueprint::WarEagle => SpriteId::UnitWarEagle,
            EntityBlueprint::AirBalloon => SpriteId::UnitAirBalloon,
            EntityBlueprint::Tower => SpriteId::BuildingTower,
            EntityBlueprint::SmallTower => SpriteId::BuildingTower,
            EntityBlueprint::Watchtower => SpriteId::BuildingTower,
            EntityBlueprint::Wall => SpriteId::BuildingTower,
            EntityBlueprint::Farm => SpriteId::BuildingFarm,
            EntityBlueprint::TradingPlace => SpriteId::BuildingTradingPlace,
            EntityBlueprint::SpawnPoint => SpriteId::BuildingHut,
            EntityBlueprint::Base => SpriteId::BuildingBase,
        }
    }

    /// The kind of entity the blueprint makes.
    pub fn tag(&self) -> (r: EntityTag)
        ensures
            r == blueprint_tag(*self),
    {
        match self {
            EntityBlueprint::BasicBuilder => EntityTag::Unit,
            EntityBlueprint::HomesickWarrior => EntityTag::Unit,
            EntityBlueprint::ElfWarrior => EntityTag::Unit,
            EntityBlueprint::OldSwordMaster => EntityTag::Unit,
            EntityBlueprint::DemonWolf => EntityTag::Unit,
            EntityBlueprint::SmallCriminal => EntityTag::Unit,
            EntityBlueprint::StreetCriminal => EntityTag::Unit,
            EntityBlueprint::Spy => EntityTag::Unit,
            EntityBlueprint::RecklessKnight => EntityTag::Unit,
            EntityBlueprint::Governor => EntityTag::Unit,
            EntityBlueprint::Dragon => EntityTag::FlyingUnit,
            EntityBlueprint::WarEagle => EntityTag::FlyingUnit,
            EntityBlueprint::AirBalloon => EntityTag::FlyingUnit,
            EntityBlueprint::Tower => EntityTag::Tower,
            EntityBlueprint::SmallTower => EntityTag::Tower,
            EntityBlueprint::Watchtower => EntityTag::Tower,
            EntityBlueprint::Wall => EntityTag::Tower,
            EntityBlueprint::Farm => EntityTag::Tower,
            EntityBlueprint::TradingPlace => EntityTag::Tower,
            EntityBlueprint::SpawnPoint => EntityTag::Tower,
            EntityBlueprint::Base => EntityTag::Base,
        }
    }

    /// Whether units may be spawned from entities of the blueprint.
    pub fn usable_as_spawn_point(&self) -> (r: bool)
        ensures
            r == blueprint_spawn_point(*self),
    {
        matches!(self, EntityBlueprint::SpawnPoint | EntityBlueprint::Base)
    }

    /// The hiding capacity of the blueprint, if it makes spies.
    pub fn spy_capacity(&self) -> (r: Option<u32>)
        ensures
            r == blueprint_spy_capacity(*self),
    {
        match self {
            EntityBlueprint::Spy => Some(2),
            _ => None,
        }
    }

    /// Whether the blueprint makes protectors.
    pub fn is_protector(&self) -> (r: bool)
        ensures
            r == blueprint_is_protector(*self),
    {
        matches!(self, EntityBlueprint::HomesickWarrior)
    }

    /// The attack profile of the blueprint, if it attacks.
    pub fn attack_profile(&self) -> (r: Option<AttackProfile>)
        ensures
            r == blueprint_attack_profile(*self),
    {
        match self {
            EntityBlueprint::BasicBuilder => Some(AttackProfile::Melee),
            EntityBlueprint::HomesickWarrior => Some(AttackProfile::Melee),
            EntityBlueprint::ElfWarrior => Some(AttackProfile::Ranged),
            EntityBlueprint::OldSwordMaster => Some(AttackProfile::Melee),
            EntityBlueprint::DemonWolf => Some(AttackProfile::Melee),
            EntityBlueprint::SmallCriminal => Some(AttackProfile::Melee),
            EntityBlueprint::StreetCriminal => Some(AttackProfile::Melee),
            EntityBlueprint::Spy => Some(AttackProfile::Melee),
            EntityBlueprint::RecklessKnight => Some(AttackProfile::Melee),
            EntityBlueprint::Governor => Some(AttackProfile::Melee),
            EntityBlueprint::Dragon => Some(AttackProfile::Flying),
            EntityBlueprint::WarEagle => Some(AttackProfile::Flying),
            EntityBlueprint::AirBalloon => Some(AttackProfile::Flying),
            EntityBlueprint::Tower => Some(AttackProfile::RangedTower),
            EntityBlueprint::SmallTower => Some(AttackProfile::RangedTower),
            EntityBlueprint::Watchtower => Some(AttackProfile::RangedTower),
            EntityBlueprint::Wall => None,
            EntityBlueprint::Farm => None,
            EntityBlueprint::TradingPlace => None,
            EntityBlueprint::SpawnPoint => None,
            EntityBlueprint::Base => None,
        }
    }

    /// How often the attack of the blueprint strikes.
    pub fn attack_pace(&self) -> (r: AttackPace)
        ensures
            r == blueprint_attack_pace(*self),
    {
        match self {
            EntityBlueprint::BasicBuilder => AttackPace::Default,
            EntityBlueprint::HomesickWarrior => AttackPace::Default,
            EntityBlueprint::ElfWarrior => AttackPace::Fast,
            EntityBlueprint::OldSwordMaster => AttackPace::Default,
            EntityBlueprint::DemonWolf => AttackPace::Default,
            EntityBlueprint::SmallCriminal => AttackPace::Default,
            EntityBlueprint::StreetCriminal => AttackPace::Fast,
            EntityBlueprint::Spy => AttackPace::Default,
            EntityBlueprint::RecklessKnight => AttackPace::Default,
            EntityBlueprint::Governor => AttackPace::Default,
            EntityBlueprint::Dragon => AttackPace::Default,
            EntityBlueprint::WarEagle => AttackPace::Default,
            EntityBlueprint::AirBalloon => AttackPace::Default,
            EntityBlueprint::Tower => AttackPace::Default,
            EntityBlueprint::SmallTower => AttackPace::Default,
            EntityBlueprint::Watchtower => AttackPace::Default,
            EntityBlueprint::Wall => AttackPace::Default,
            EntityBlueprint::Farm => AttackPace::Default,
            EntityBlueprint::TradingPlace => AttackPace::Default,
            EntityBlueprint::SpawnPoint => AttackPace::Default,
            EntityBlueprint::Base => AttackPace::Default,
        }
    }

    /// How fast entities of the blueprint walk; buildings do not.
    pub fn walk_speed(&self) -> (r: Option<WalkSpeed>)
        ensures
            r == blueprint_walk_speed(*self),
    {
        match self {
            EntityBlueprint::BasicBuilder => Some(WalkSpeed::Default),
            EntityBlueprint::HomesickWarrior => Some(WalkSpeed::Default),
            EntityBlueprint::ElfWarrior => Some(WalkSpeed::Default),
            EntityBlueprint::OldSwordMaster => Some(WalkSpeed::VerySlow),
            EntityBlueprint::DemonWolf => Some(WalkSpeed::Fast),
            EntityBlueprint::SmallCriminal => Some(WalkSpeed::Fast),
            EntityBlueprint::StreetCriminal => Some(WalkSpeed::Default),
            EntityBlueprint::Spy => Some(WalkSpeed::Default),
            EntityBlueprint::RecklessKnight => Some(WalkSpeed::Fast),
            EntityBlueprint::Governor => Some(WalkSpeed::Default),
            EntityBlueprint::Dragon => Some(WalkSpeed::Default),
            EntityBlueprint::WarEagle => Some(WalkSpeed::Default),
            EntityBlueprint::AirBalloon => Some(WalkSpeed::Slow),
            EntityBlueprint::Tower => None,
            EntityBlueprint::SmallTower => None,
            EntityBlueprint::Watchtower => None,
            EntityBlueprint::Wall => None,
            EntityBlueprint::Farm => None,
            EntityBlueprint::TradingPlace => None,
            EntityBlueprint::SpawnPoint => None,
            EntityBlueprint::Base => None,
        }
    }

    /// The buffs entities of the blueprint spread.
    pub fn buff_sources(&self) -> (r: Vec<BuffSourceShape>)
        ensures
            r@ == blueprint_buff_sources(*self),
    {
        let r = match self {
            EntityBlueprint::Governor => {
                let mut towers = EnumFlags::new();
                towers.set(&EntityTag::Tower);
                vec![
                    BuffSourceShape {
                        buff_type: OutgoingBuffType::AttackDamage,
                        condition: BuffCondition::EntityFilter(
                            EntityFilter {
                                range_filter: None,
                                pool_filter: Some(TargetPool::Allies),
                                tag_filter: Some(towers),
                            },
                        ),
                        target_filter: BuffTargetFilter::Me,
                    },
                ]
            },
            EntityBlueprint::SmallTower => {
                let mut towers = EnumFlags::new();
                towers.set(&EntityTag::Tower);
                vec![
                    BuffSourceShape {
                        buff_type: OutgoingBuffType::AttackSpeed,
                        condition: BuffCondition::EntityFilter(
                            EntityFilter {
                                range_filter: Some(BuffRange::Default),
                                pool_filter: Some(TargetPool::Allies),
                                tag_filter: Some(towers),
                            },
                        ),
                        target_filter: BuffTargetFilter::Me,
                    },
                ]
            },
            EntityBlueprint::Watchtower => vec![
                BuffSourceShape {
                    buff_type: OutgoingBuffType::AttackRange,
                    condition: BuffCondition::AlwaysSingle,
                    target_filter: BuffTargetFilter::EntityFilter(
                        EntityFilter {
                            range_filter: Some(BuffRange::Default),
                            pool_filter: Some(TargetPool::Allies),
                            tag_filter: None,
                        },
                    ),
                },
            ],
            _ => Vec::new(),
        };
        assert(r@ =~= blueprint_buff_sources(*self));
        r
    }

    /// The health a card bringing this blueprint shows.
    pub fn get_health(&self) -> (r: Option<i32>)
        ensures
            r == Some(blueprint_max_health(*self)),
    {
        Some(self.max_health())
    }

    /// The attack a card bringing this blueprint shows, when it attacks at all.
    pub fn get_attack(&self) -> (r: Option<i32>)
        ensures
            r == spec_get_attack(*self),
    {
        let damages = self.attack_damages();
        if damages.len() > 1 {
            return None;
        }
        if damages.len() == 1 {
            Some(damages[0])
        } else {
            None
        }
    }
}

/// Every blueprint starts with positive health, and none carries more than one attack, so a
/// blueprint shows an attack exactly when it has one.
pub proof fn lemma_blueprint_stats_well_formed(blueprint: EntityBlueprint)
    ensures
        blueprint_max_health(blueprint) > 0,
        blueprint_attack_damages(blueprint).len() <= 1,
        spec_get_attack(blueprint) is Some <==> blueprint_attack_damages(blueprint).len() == 1,
{
}

/// An entity attacks exactly when its blueprint gives it an attack damage; flying units attack as
/// flyers and towers that attack shoot as towers; exactly the units walk.
pub proof fn lemma_blueprint_shape(blueprint: EntityBlueprint)
    ensures
        blueprint_attack_profile(blueprint) is Some <==> blueprint_attack_damages(blueprint).len() == 1,
        blueprint_tag(blueprint) == EntityTag::FlyingUnit ==> blueprint_attack_profile(blueprint)
            == Some(AttackProfile::Flying),
        blueprint_tag(blueprint) == EntityTag::Tower && blueprint_attack_profile(blueprint) is Some
            ==> blueprint_attack_profile(blueprint) == Some(AttackProfile::RangedTower),
        blueprint_walk_speed(blueprint) is Some <==> (blueprint_tag(blueprint) == EntityTag::Unit
            || blueprint_tag(blueprint) == EntityTag::FlyingUnit),
{
}

/// The blueprint list names every blueprint exactly once.
pub proof fn lemma_all_blueprints_complete(blueprint: EntityBlueprint)
    ensures
        all_blueprints().contains(blueprint),
        all_blueprints().no_duplicates(),
{
    let s = all_blueprints();
    assert(s.len() == 21);
    match blueprint {
        EntityBlueprint::BasicBuilder => assert(s[0] == blueprint),
        EntityBlueprint::HomesickWarrior => assert(s[1] == blueprint),
        EntityBlueprint::ElfWarrior => assert(s[2] == blueprint),
        EntityBlueprint::OldSwordMaster => assert(s[3] == blueprint),
        EntityBlueprint::DemonWolf => assert(s[4] == blueprint),
        EntityBlueprint::SmallCriminal => assert(s[5] == blueprint),
        EntityBlueprint::StreetCriminal => assert(s[6] == blueprint),
        EntityBlueprint::Spy => assert(s[7] == blueprint),
        EntityBlueprint::RecklessKnight => assert(s[8] == blueprint),
        EntityBlueprint::Governor => assert(s[9] == blueprint),
        EntityBlueprint::Dragon => assert(s[10] == blueprint),
        EntityBlueprint::WarEagle => assert(s[11] == blueprint),
        EntityBlueprint::AirBalloon => assert(s[12] == blueprint),
        EntityBlueprint::Tower => assert(s[13] == blueprint),
        EntityBlueprint::SmallTower => assert(s[14] == blueprint),
        EntityBlueprint::Watchtower => assert(s[15] == blueprint),
        EntityBlueprint::Wall => assert(s[16] == blueprint),
        EntityBlueprint::Farm => assert(s[17] == blueprint),
        EntityBlueprint::TradingPlace => assert(s[18] == blueprint),
        EntityBlueprint::SpawnPoint => assert(s[19] == blueprint),
        EntityBlueprint::Base => assert(s[20] == blueprint),
    }
}

/// Units can be spawned from every base, from the start of the game, and from every Spawn Point
/// building; no other blueprint is a spawn point.
pub proof fn lemma_bases_and_spawn_points_spawn(blueprint: EntityBlueprint)
    ensures
        blueprint_tag(blueprint) == EntityTag::Base ==> blueprint_spawn_point(blueprint),
        blueprint == EntityBlueprint::SpawnPoint ==> blueprint_spawn_point(blueprint),
        blueprint_spawn_point(blueprint) ==> blueprint_tag(blueprint) == EntityTag::Base
            || blueprint == EntityBlueprint::SpawnPoint,
{
}

} // verus!
