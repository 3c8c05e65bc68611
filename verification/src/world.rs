use vstd::prelude::*;

use crate::ids::EntityId;

verus! {

/// The side of a path a player walks from: towards growing indices or towards index zero.
#[derive(Copy, Clone, PartialEq, Eq, Debug, Structural)]
pub enum Direction {
    Positive,
    Negative,
}

/// The kind of building a building location accepts.
#[derive(Copy, Clone, PartialEq, Eq, Debug, Structural)]
pub enum Zoning {
    Normal,
    Commerce,
}

/// A spot on the map where a building can stand: where it is, what it accepts, and the
/// entity standing there, if any.
#[derive(Debug, Clone, Copy, PartialEq, Eq)]
pub struct BuildingLocation<Pos> {
    pub pos: Pos,
    pub entity_id: Option<EntityId>,
    pub zoning: Zoning,
}

impl Direction {
    /// The step a direction takes along a path: `1` or `-1`.
    pub open spec fn spec_to_i32(self) -> int {
        match self {
            Direction::Positive => 1int,
            Direction::Negative => -1int,
        }
    }

    pub open spec fn spec_flipped(self) -> Direction {
        match self {
            Direction::Positive => Direction::Negative,
            Direction::Negative => Direction::Positive,
        }
    }

    /// The step of the direction: `1` or `-1`.
    pub fn to_i32(&self) -> (r: i32)
        ensures
            r == self.spec_to_i32(),
    {
        match self {
            Direction::Positive => 1,
            Direction::Negative => -1,
        }
    }

    /// The opposite direction.
    pub fn flipped(&self) -> (r: Direction)
        ensures
            r == self.spec_flipped(),
    {
        match self {
            Direction::Positive => Direction::Negative,
            Direction::Negative => Direction::Positive,
        }
    }
}

/// The index one step along a path, clamped at zero. The index is first read as an `i32`,
/// exactly as the arithmetic of the game does.
pub open spec fn spec_next_path_idx(path_idx: usize, direction: Direction) -> usize {
    let next = (path_idx as i32) + direction.spec_to_i32();
    if next < 0 {
        0
    } else {
        next as usize
    }
}

/// Whether `next_path_idx` can step from `path_idx` without leaving the `i32` range.
pub open spec fn next_path_idx_in_range(path_idx: usize, direction: Direction) -> bool {
    i32::MIN <= (path_idx as i32) + direction.spec_to_i32() <= i32::MAX
}

/// The index one step along a path from `path_idx`, clamped at zero.
pub fn next_path_idx(path_idx: usize, direction: Direction) -> (r: usize)
    requires
        next_path_idx_in_range(path_idx, direction),
    ensures
        r == spec_next_path_idx(path_idx, direction),
{
    let next_path_idx = #[verifier::truncate] (path_idx as i32) + direction.to_i32();
    if next_path_idx < 0 {
        0
    } else {
        next_path_idx as usize
    }
}

/// Along a path of ordinary length, a positive step moves one index forward and a negative
/// step one index back, never below the start of the path.
pub proof fn lemma_next_path_idx_steps(path_idx: usize, direction: Direction)
    requires
        path_idx < i32::MAX,
    ensures
        next_path_idx_in_range(path_idx, direction),
        direction == Direction::Positive ==> spec_next_path_idx(path_idx, direction) == path_idx + 1,
        direction == Direction::Negative ==> spec_next_path_idx(path_idx, direction) == if path_idx == 0 {
            0
        } else {
            path_idx - 1
        },
{
}

/// Flipping twice gives back the direction one started with.
pub proof fn lemma_flipped_involution(direction: Direction)
    ensures
        direction.spec_flipped().spec_flipped() == direction,
        direction.spec_flipped() != direction,
{
}

} // verus!
