use vstd::prelude::*;

use crate::ids::PathId;
use crate::world::{next_path_idx, next_path_idx_in_range, spec_next_path_idx, Direction};

verus! {

/// Where along a path a unit of the older movement model is heading.
#[derive(Clone, Copy, Debug, PartialEq, Eq, Structural)]
pub struct PathState {
    pub path_id: PathId,
    pub target_path_idx: usize,
    pub direction: Direction,
}

impl PathState {
    /// Moves the target one point along the path in the walking direction.
    pub fn incr(&mut self)
        requires
            next_path_idx_in_range(old(self).target_path_idx, old(self).direction),
        ensures
            final(self).target_path_idx == spec_next_path_idx(
                old(self).target_path_idx,
                old(self).direction,
            ),
            final(self).path_id == old(self).path_id,
            final(self).direction == old(self).direction,
    {
        self.target_path_idx = next_path_idx(self.target_path_idx, self.direction);
    }
}

} // verus!
