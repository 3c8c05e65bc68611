use vstd::prelude::*;

verus! {

/// How many cards a player starts a game with in hand.
pub const STARTING_HAND_SIZE: i32 = 4;

/// The most cards a hand can hold.
pub const MAX_HAND_SIZE: usize = 10;

/// The energy a player starts a game with.
pub const STARTING_ENERGY: i32 = 0;

} // verus!
