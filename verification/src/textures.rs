use vstd::prelude::*;

verus! {

/// The picture an entity is drawn with.
#[derive(Debug, Clone, Copy, PartialEq, Eq, Hash, Structural)]
pub enum SpriteId {
    Empty,
    MapBackground,
    UnitArcher,
    UnitSwordsman,
    BuildingBase,
    BuildingTower,
    BuildingSpawnpoint,
    BuildingHut,
    BuildingTradingPlace,
    BuildingFarm,
    UnitBuilder,
    UnitPriest,
    UnitDemonPig,
    UnitRecklessKnight,
    UnitGovernor,
    UnitDynamiteMan,
    UnitSpy,
    UnitStreetCriminal,
    UnitSmallCriminal,
    UnitDemonWolf,
    UnitOldSwordMaster,
    UnitElfWarrior,
    UnitHomesickWarrior,
    UnitAirBalloon,
    UnitDragon,
    UnitWarEagle,
}

impl Default for SpriteId {
    fn default() -> (r: Self)
        ensures
            r == SpriteId::Empty,
    {
        SpriteId::Empty
    }
}

/// The file name of the texture of each sprite, relative to the texture directory.
pub open spec fn sprite_file(sprite_id: SpriteId) -> Seq<char> {
    match sprite_id {
        SpriteId::MapBackground => "map.png"@,
        SpriteId::UnitArcher => "unit_archer.png"@,
        SpriteId::UnitSwordsman => "unit_swordsman.png"@,
        SpriteId::UnitPriest => "unit_priest.png"@,
        SpriteId::UnitBuilder => "unit_builder.png"@,
        SpriteId::UnitDemonPig => "unit_demon_pig.png"@,
        SpriteId::UnitRecklessKnight => "reckless_knight.png"@,
        SpriteId::UnitSpy => "spy.png"@,
        SpriteId::UnitStreetCriminal => "street_criminal.png"@,
        SpriteId::UnitSmallCriminal => "small_criminal.png"@,
        SpriteId::UnitDemonWolf => "demon_wolf.png"@,
        SpriteId::UnitOldSwordMaster => "old_sword_master.png"@,
        SpriteId::UnitElfWarrior => "elf_warrior.png"@,
        SpriteId::UnitHomesickWarrior => "homesick_warrior.png"@,
        SpriteId::UnitGovernor => "governor.png"@,
        SpriteId::UnitDynamiteMan => "dynamite_man.png"@,
        SpriteId::UnitAirBalloon => "air_balloon.png"@,
        SpriteId::UnitDragon => "dragon.png"@,
        SpriteId::UnitWarEagle => "war_eagle.png"@,
        SpriteId::Empty => "x.png"@,
        SpriteId::BuildingBase => "building_base.png"@,
        SpriteId::BuildingTower => "building_tower.png"@,
        SpriteId::BuildingSpawnpoint => "building_spawnpoint.png"@,
        SpriteId::BuildingHut => "building_hut.png"@,
        SpriteId::BuildingTradingPlace => "building_trading_place.png"@,
        SpriteId::BuildingFarm => "building_farm.png"@,
    }
}

impl SpriteId {
    /// The file of the sprite, under the texture directory.
    pub fn to_path(&self) -> (r: &'static str)
        ensures
            r@ == sprite_file(*self),
    {
        match self {
            SpriteId::MapBackground => "map.png",
            SpriteId::UnitArcher => "unit_archer.png",
            SpriteId::UnitSwordsman => "unit_swordsman.png",
            SpriteId::UnitPriest => "unit_priest.png",
            SpriteId::UnitBuilder => "unit_builder.png",
            SpriteId::UnitDemonPig => "unit_demon_pig.png",
            SpriteId::UnitRecklessKnight => "reckless_knight.png",
            SpriteId::UnitSpy => "spy.png",
            SpriteId::UnitStreetCriminal => "street_criminal.png",
            SpriteId::UnitSmallCriminal => "small_criminal.png",
            SpriteId::UnitDemonWolf => "demon_wolf.png",
            SpriteId::UnitOldSwordMaster => "old_sword_master.png",
            SpriteId::UnitElfWarrior => "elf_warrior.png",
            SpriteId::UnitHomesickWarrior => "homesick_warrior.png",
            SpriteId::UnitGovernor => "governor.png",
            SpriteId::UnitDynamiteMan => "dynamite_man.png",
            SpriteId::UnitAirBalloon => "air_balloon.png",
            SpriteId::UnitDragon => "dragon.png",
            SpriteId::UnitWarEagle => "war_eagle.png",
            SpriteId::Empty => "x.png",
            SpriteId::BuildingBase => "building_base.png",
            SpriteId::BuildingTower => "building_tower.png",
            SpriteId::BuildingSpawnpoint => "building_spawnpoint.png",
            SpriteId::BuildingHut => "building_hut.png",
            SpriteId::BuildingTradingPlace => "building_trading_place.png",
            SpriteId::BuildingFarm => "building_farm.png",
        }
    }
}

/// What tells the sprite files apart: their length, first character and fifth character from
/// the end.
pub open spec fn file_signature(file: Seq<char>) -> (int, char, char) {
    (file.len() as int, file[0], file[file.len() - 5])
}

/// No two sprites are loaded from the same file, and every sprite file is a `.png` picture.
pub proof fn lemma_sprite_files_distinct(a: SpriteId, b: SpriteId)
    ensures
        a != b ==> sprite_file(a) != sprite_file(b),
        sprite_file(a).len() >= 4,
        sprite_file(a).subrange(sprite_file(a).len() - 4, sprite_file(a).len() as int) == ".png"@,
{
    reveal_strlit("map.png");
    reveal_strlit("unit_archer.png");
    reveal_strlit("unit_swordsman.png");
    reveal_strlit("unit_priest.png");
    reveal_strlit("unit_builder.png");
    reveal_strlit("unit_demon_pig.png");
    reveal_strlit("reckless_knight.png");
    reveal_strlit("spy.png");
    reveal_strlit("street_criminal.png");
    reveal_strlit("small_criminal.png");
    reveal_strlit("demon_wolf.png");
    reveal_strlit("old_sword_master.png");
    reveal_strlit("elf_warrior.png");
    reveal_strlit("homesick_warrior.png");
    reveal_strlit("governor.png");
    reveal_strlit("dynamite_man.png");
    reveal_strlit("air_balloon.png");
    reveal_strlit("dragon.png");
    reveal_strlit("war_eagle.png");
    reveal_strlit("x.png");
    reveal_strlit("building_base.png");
    reveal_strlit("building_tower.png");
    reveal_strlit("building_spawnpoint.png");
    reveal_strlit("building_hut.png");
    reveal_strlit("building_trading_place.png");
    reveal_strlit("building_farm.png");
    reveal_strlit(".png");
    let fa = sprite_file(a);
    assert(fa.subrange(fa.len() - 4, fa.len() as int) =~= ".png"@);
    if a != b {
        assert(file_signature(sprite_file(a)) != file_signature(sprite_file(b)));
    }
}

} // verus!
