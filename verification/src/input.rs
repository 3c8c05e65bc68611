use vstd::prelude::*;

verus! {

/// The input a player gave during a frame; the game reads none yet.
#[derive(Debug, Default)]
pub struct GameInput {}

} // verus!
