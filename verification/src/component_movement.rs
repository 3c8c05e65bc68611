use vstd::prelude::*;

use crate::game_state::StaticGameState;
use crate::ids::{EntityId, PathId};
use crate::play_target::UnitSpawnpointTarget;
use crate::world::{next_path_idx, next_path_idx_in_range, spec_next_path_idx, Direction};

verus! {

/// Where along a path an entity is heading, and which way it walks.
#[derive(Debug, Clone, Copy, PartialEq, Eq, Structural)]
pub struct PathState {
    pub path_id: PathId,
    pub target_path_idx: usize,
    pub direction: Direction,
}

/// Steers an entity along its path.
#[derive(Debug, Clone, Copy, PartialEq, Eq, Structural)]
pub struct PathTargetSetter {
    pub path_state: Option<PathState>,
}

/// Steers an entity towards another entity, such as a projectile towards its target.
#[derive(Debug, Clone, Copy, PartialEq, Eq, Structural)]
pub struct EntityTargetSetter {
    pub target_entity_id: Option<EntityId>,
}

impl PathState {
    /// The path index that follows `target_path_idx`, kept within a path of `path_len` points.
    pub open spec fn spec_incr(self, path_len: usize) -> usize {
        let next = spec_next_path_idx(self.target_path_idx, self.direction);
        if next < path_len - 1 {
            next
        } else {
            (path_len - 1) as usize
        }
    }

    /// Whether `static_game_state` holds the path of this state, with at least one point.
    pub open spec fn path_is_known<Point>(self, static_game_state: &StaticGameState<Point>) -> bool {
        &&& static_game_state.paths@.contains_key(self.path_id.0)
        &&& static_game_state.paths@[self.path_id.0]@.len() >= 1
    }

    /// Moves the target one point along the path, stopping at its last point.
    pub fn incr<Point>(&mut self, static_game_state: &StaticGameState<Point>)
        requires
            old(self).path_is_known(static_game_state),
            next_path_idx_in_range(old(self).target_path_idx, old(self).direction),
        ensures
            final(self).target_path_idx == old(self).spec_incr(
                static_game_state.paths@[old(self).path_id.0]@.len() as usize,
            ),
            final(self).path_id == old(self).path_id,
            final(self).direction == old(self).direction,
    {
        self.target_path_idx = next_path_idx(self.target_path_idx, self.direction);
        let path = static_game_state.paths.get(&self.path_id.0).unwrap();
        let last = path.len() - 1;
        if last < self.target_path_idx {
            self.target_path_idx = last;
        }
    }

    /// Turns to walk in `direction`; a turn moves the target one point the new way, and walking on
    /// in the same direction changes nothing.
    pub fn set_direction(&mut self, direction: Direction)
        requires
            direction != old(self).direction ==> next_path_idx_in_range(
                old(self).target_path_idx,
                direction,
            ),
        ensures
            final(self).path_id == old(self).path_id,
            final(self).direction == direction,
            final(self).target_path_idx == if direction == old(self).direction {
                old(self).target_path_idx
            } else {
                spec_next_path_idx(old(self).target_path_idx, direction)
            },
    {
        if direction == self.direction {
            return;
        }
        self.direction = direction;
        self.target_path_idx = next_path_idx(self.target_path_idx, self.direction);
    }

    /// The path state of a unit spawned at `target`: it heads for the point after the spawn point.
    pub fn from(target: UnitSpawnpointTarget) -> (r: Self)
        requires
            next_path_idx_in_range(target.path_idx, target.direction),
        ensures
            r.path_id == target.path_id,
            r.direction == target.direction,
            r.target_path_idx == spec_next_path_idx(target.path_idx, target.direction),
    {
        Self {
            path_id: target.path_id,
            target_path_idx: next_path_idx(target.path_idx, target.direction),
            direction: target.direction,
        }
    }
}

/// What a protector knows about the building it guards on its path.
#[derive(Debug, Clone, Copy, PartialEq, Eq, Structural)]
pub enum ProtectorInput {
    /// The entity is no protector.
    NotProtector,
    /// The entity is a protector, and no building stands or is planned along its path.
    NoBuilding,
    /// The entity is a protector guarding the building closest to path point
    /// `closest_path_idx`; `close_enough` says whether it already stands by that point.
    Building { closest_path_idx: usize, close_enough: bool },
}

/// What the movement of an entity does after its path target setter has run.
#[derive(Debug, Clone, Copy, PartialEq, Eq, Structural)]
pub enum PathTargetStep {
    /// The entity follows no path; its movement target is left as it was.
    Idle,
    /// The protector has reached its post: it drops its movement target.
    Stop,
    /// The entity heads for path point `target_path_idx`; when it stands close enough to that
    /// point, it moves its target on with `PathState::incr`.
    Approach { target_path_idx: usize },
}

/// The direction a protector turns to reach path point `goal` from target `target`.
pub open spec fn protector_direction(goal: usize, target: usize) -> Direction {
    if goal > target {
        Direction::Positive
    } else {
        Direction::Negative
    }
}

impl PathTargetSetter {
    /// How one path target update changes the state of the setter, and what it decides.
    pub open spec fn update_outcome(
        before: PathTargetSetter,
        after: PathTargetSetter,
        protector: ProtectorInput,
        owner_direction: Direction,
        step: PathTargetStep,
    ) -> bool {
        match before.path_state {
            None => step == PathTargetStep::Idle && after == before,
            Some(ps) => match protector {
                ProtectorInput::Building { closest_path_idx, close_enough: true } => step
                    == PathTargetStep::Stop && after == before,
                ProtectorInput::Building { closest_path_idx, close_enough: false } => {
                    let ps2 = if closest_path_idx == ps.target_path_idx {
                        ps
                    } else {
                        turned(ps, protector_direction(closest_path_idx, ps.target_path_idx))
                    };
                    &&& after.path_state == Some(ps2)
                    &&& step == PathTargetStep::Approach { target_path_idx: ps2.target_path_idx }
                },
                ProtectorInput::NoBuilding => {
                    let ps2 = turned(ps, owner_direction.spec_flipped());
                    &&& after.path_state == Some(ps2)
                    &&& step == PathTargetStep::Approach { target_path_idx: ps2.target_path_idx }
                },
                ProtectorInput::NotProtector => {
                    &&& after == before
                    &&& step == PathTargetStep::Approach { target_path_idx: ps.target_path_idx }
                },
            },
        }
    }

    /// Whether a path target update can turn without leaving the `i32` range of path indices.
    pub open spec fn update_in_range(self, protector: ProtectorInput, owner_direction: Direction) -> bool {
        match self.path_state {
            None => true,
            Some(ps) => match protector {
                ProtectorInput::Building { closest_path_idx, close_enough: false } => closest_path_idx
                    != ps.target_path_idx ==> can_turn(
                    ps,
                    protector_direction(closest_path_idx, ps.target_path_idx),
                ),
                ProtectorInput::NoBuilding => can_turn(ps, owner_direction.spec_flipped()),
                _ => true,
            },
        }
    }

    /// Decides where an entity following a path heads this tick. A protector turns towards the
    /// building it guards, or back towards its owner's side when there is none, and stops once it
    /// stands by the building.
    pub fn update(&mut self, protector: ProtectorInput, owner_direction: Direction) -> (r:
        PathTargetStep)
        requires
            old(self).update_in_range(protector, owner_direction),
        ensures
            Self::update_outcome(*old(self), *final(self), protector, owner_direction, r),
    {
        let Some(path_state) = &mut self.path_state else {
            return PathTargetStep::Idle;
        };
        match protector {
            ProtectorInput::Building { closest_path_idx, close_enough } => {
                if close_enough {
                    return PathTargetStep::Stop;
                }
                if closest_path_idx != path_state.target_path_idx {
                    path_state.set_direction(
                        if closest_path_idx > path_state.target_path_idx {
                            Direction::Positive
                        } else {
                            Direction::Negative
                        },
                    );
                }
            },
            ProtectorInput::NoBuilding => {
                path_state.set_direction(owner_direction.flipped());
            },
            ProtectorInput::NotProtector => {},
        }
        PathTargetStep::Approach { target_path_idx: path_state.target_path_idx }
    }
}

/// The path state after turning to `direction`.
pub open spec fn turned(ps: PathState, direction: Direction) -> PathState {
    if direction == ps.direction {
        ps
    } else {
        PathState {
            path_id: ps.path_id,
            target_path_idx: spec_next_path_idx(ps.target_path_idx, direction),
            direction,
        }
    }
}

/// Whether turning `ps` to `direction` stays within the `i32` range of path indices.
pub open spec fn can_turn(ps: PathState, direction: Direction) -> bool {
    direction != ps.direction ==> next_path_idx_in_range(ps.target_path_idx, direction)
}

impl EntityTargetSetter {
    /// Whether `r` is the index of the first entity with identifier `target` among `entity_ids`,
    /// or nothing when there is no target or no such entity.
    pub open spec fn found_target(target: Option<EntityId>, entity_ids: Seq<EntityId>, r: Option<usize>) -> bool {
        match target {
            None => r is None,
            Some(id) => match r {
                Some(i) => {
                    &&& i < entity_ids.len()
                    &&& entity_ids[i as int] == id
                    &&& forall|j: int| 0 <= j < i ==> entity_ids[j] != id
                },
                None => forall|j: int| 0 <= j < entity_ids.len() ==> entity_ids[j] != id,
            },
        }
    }

    /// Finds the entity the setter steers towards among the entities with identifiers
    /// `entity_ids`: the index of the first with the target's identifier, or nothing when the
    /// setter has no target or the target is gone.
    pub fn update(&self, entity_ids: &Vec<EntityId>) -> (r: Option<usize>)
        ensures
            Self::found_target(self.target_entity_id, entity_ids@, r),
    {
        let target = match self.target_entity_id {
            Some(target) => target,
            None => {
                return None;
            },
        };
        let mut i: usize = 0;
        while i < entity_ids.len()
            invariant
                i <= entity_ids@.len(),
                self.target_entity_id == Some(target),
                forall|j: int| 0 <= j < i ==> entity_ids@[j] != target,
            decreases entity_ids@.len() - i,
        {
            if entity_ids[i] == target {
                return Some(i);
            }
            i = i + 1;
        }
        None
    }
}

/// Moving the target on never takes it past the last point of the path, and a unit walking
/// forwards in the middle of its path advances by exactly one point.
pub proof fn lemma_incr_stays_on_path(ps: PathState, path_len: usize)
    requires
        path_len >= 1,
        ps.target_path_idx < i32::MAX,
    ensures
        ps.spec_incr(path_len) < path_len,
        ps.direction == Direction::Positive && ps.target_path_idx + 1 < path_len ==> ps.spec_incr(
            path_len,
        ) == ps.target_path_idx + 1,
        ps.direction == Direction::Negative && ps.target_path_idx < path_len ==> ps.spec_incr(path_len)
            == if ps.target_path_idx == 0 {
            0
        } else {
            ps.target_path_idx - 1
        },
{
}

/// A protector that stands by its building stays put, and one that is still away always ends up
/// heading towards that building's point, or already targets it.
pub proof fn lemma_protector_heads_for_building(
    before: PathTargetSetter,
    after: PathTargetSetter,
    closest_path_idx: usize,
    owner_direction: Direction,
    step: PathTargetStep,
)
    requires
        before.path_state is Some,
        before.path_state->0.target_path_idx < i32::MAX,
        PathTargetSetter::update_outcome(
            before,
            after,
            ProtectorInput::Building { closest_path_idx, close_enough: false },
            owner_direction,
            step,
        ),
    ensures
        after.path_state is Some,
        ({
            let t0 = before.path_state->0.target_path_idx;
            let ps = after.path_state->0;
            &&& closest_path_idx > t0 ==> ps.direction == Direction::Positive
            &&& closest_path_idx < t0 ==> ps.direction == Direction::Negative
            &&& closest_path_idx == t0 ==> ps == before.path_state->0
        }),
{
}

/// A protector away from its building that already walks towards the building's path point keeps
/// its path state as it is and heads for its current target point: it neither turns nor skips a
/// point.
pub proof fn lemma_protector_keeps_course(
    before: PathTargetSetter,
    after: PathTargetSetter,
    closest_path_idx: usize,
    owner_direction: Direction,
    step: PathTargetStep,
)
    requires
        before.path_state is Some,
        PathTargetSetter::update_outcome(
            before,
            after,
            ProtectorInput::Building { closest_path_idx, close_enough: false },
            owner_direction,
            step,
        ),
        closest_path_idx > before.path_state->0.target_path_idx ==> before.path_state->0.direction
            == Direction::Positive,
        closest_path_idx < before.path_state->0.target_path_idx ==> before.path_state->0.direction
            == Direction::Negative,
    ensures
        after == before,
        step == (PathTargetStep::Approach { target_path_idx: before.path_state->0.target_path_idx }),
{
}

} // verus!
