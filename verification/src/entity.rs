use vstd::prelude::*;
use crate::enum_flags::FlagIndex;

verus! {

/// What kind of thing an entity is; attacks and filters select their targets by it.
#[derive(Debug, Clone, Copy, PartialEq, Eq, Structural)]
pub enum EntityTag {
    NoTag,
    Base,
    Tower,
    Unit,
    FlyingUnit,
    Bullet,
}

impl Default for EntityTag {
    fn default() -> (r: Self)
        ensures
            r == EntityTag::NoTag,
    {
        EntityTag::NoTag
    }
}

/// The bit an entity tag occupies in a flag set: its position in the declaration.
pub open spec fn entity_tag_index(tag: EntityTag) -> usize {
    match tag {
        EntityTag::NoTag => 0,
        EntityTag::Base => 1,
        EntityTag::Tower => 2,
        EntityTag::Unit => 3,
        EntityTag::FlyingUnit => 4,
        EntityTag::Bullet => 5,
    }
}

impl FlagIndex for EntityTag {
    open spec fn spec_flag_index(self) -> usize {
        entity_tag_index(self)
    }

    fn flag_index(&self) -> (r: usize) {
        match self {
            EntityTag::NoTag => 0,
            EntityTag::Base => 1,
            EntityTag::Tower => 2,
            EntityTag::Unit => 3,
            EntityTag::FlyingUnit => 4,
            EntityTag::Bullet => 5,
        }
    }
}

/// The phase an entity is in during a game tick.
#[derive(Debug, Clone, Copy, PartialEq, Eq, Structural)]
pub enum EntityState {
    CreationFrame,
    SpawnFrame,
    Moving,
    Attacking,
    Passive,
    Building,
    Dead,
}

/// Special abilities an entity may carry in its flag set.
#[derive(Debug, Clone, Copy, PartialEq, Eq, Structural)]
pub enum AbilityFlag {
    Protector,
}

impl FlagIndex for AbilityFlag {
    open spec fn spec_flag_index(self) -> usize {
        match self {
            AbilityFlag::Protector => 0,
        }
    }

    fn flag_index(&self) -> (r: usize) {
        match self {
            AbilityFlag::Protector => 0,
        }
    }
}

} // verus!
