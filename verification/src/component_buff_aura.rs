use vstd::prelude::*;

verus! {

/// How far an aura reaches; its distance is a matter of the game's geometry.
#[derive(Debug, Clone, Copy, PartialEq, Eq, Structural)]
pub enum BuffAuraRange {
    Short,
    Default,
    Long,
    Infinite,
}

} // verus!
