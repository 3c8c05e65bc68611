//! Rules of a card-driven lane battler: flag sets, targeting pools, path walking, entity state
//! decisions, hands of cards and the card and blueprint catalogues.
pub mod attack;
pub mod card;
pub mod component_attack;
pub mod component_buff_aura;
pub mod component_buff_source;
pub mod component_movement;
pub mod component_movement_behavior;
pub mod component_self_buff;
pub mod component_spy;
pub mod entity;
pub mod entity_blueprint;
pub mod entity_filter;
pub mod enum_flags;
pub mod find_target;
pub mod game_loop;
pub mod game_state;
pub mod gameplay_config;
pub mod hand;
pub mod ids;
pub mod input;
pub mod message_acknowledgement;
pub mod outgoing_buff;
pub mod physical_hand;
pub mod play_target;
pub mod textures;
pub mod world;

pub use world::{next_path_idx, Direction};

use vstd::prelude::*;

verus! {

/// The kinds of entity of the first entity model, where every entity is a base, a tower, a unit
/// or a bullet.
#[derive(Clone, Copy, PartialEq, Eq, Debug, Structural)]
pub enum EntityTag {
    Base,
    Tower,
    Unit,
    Bullet,
}

} // verus!
