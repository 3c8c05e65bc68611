use vstd::prelude::*;

use crate::component_buff_source::BuffRange;
use crate::entity_filter::{EntityFilter, FilterCandidate};
use crate::ids::PlayerId;

verus! {

/// When an entity buffs itself: once for each entity the filter selects.
#[derive(Debug, Clone)]
pub enum SelfBuffCondition {
    EntityFilter(EntityFilter<BuffRange>),
}

impl SelfBuffCondition {
    /// How many times the condition is met, seen from an entity owned by `source_owner` among
    /// `candidates`, the entities of the game.
    pub open spec fn spec_is_met(self, source_owner: PlayerId, candidates: Seq<FilterCandidate>) -> nat {
        match self {
            SelfBuffCondition::EntityFilter(filter) => filter.spec_count(source_owner, candidates),
        }
    }

    /// Counts the entities the filter selects, checking range, pool and tag in turn.
    pub fn _is_met(&self, source_owner: PlayerId, candidates: &Vec<FilterCandidate>) -> (r: usize)
        ensures
            r == self.spec_is_met(source_owner, candidates@),
    {
        match self {
            SelfBuffCondition::EntityFilter(entity_filter) => {
                let mut n: usize = 0;
                let mut i: usize = 0;
                while i < candidates.len()
                    invariant
                        i <= candidates@.len(),
                        n == entity_filter.spec_count(source_owner, candidates@.take(i as int)),
                        n <= i,
                    decreases candidates@.len() - i,
                {
                    assert(candidates@.take(i + 1).drop_last() =~= candidates@.take(i as int));
                    let other = &candidates[i];
                    let in_range = !(entity_filter.range_filter.is_some() && other.beyond_range);
                    let in_pool = match &entity_filter.pool_filter {
                        Some(pool) => pool.in_pool(source_owner, other.owner),
                        None => true,
                    };
                    let in_tags = match &entity_filter.tag_filter {
                        Some(tags) => tags.is_set(&other.tag),
                        None => true,
                    };
                    if in_range && in_pool && in_tags {
                        n = n + 1;
                    }
                    i = i + 1;
                }
                assert(candidates@.take(candidates@.len() as int) =~= candidates@);
                n
            },
        }
    }

    /// Counts the entities the filter selects.
    pub fn is_met(&self, source_owner: PlayerId, candidates: &Vec<FilterCandidate>) -> (r: usize)
        ensures
            r == self.spec_is_met(source_owner, candidates@),
    {
        match self {
            SelfBuffCondition::EntityFilter(entity_filter) => entity_filter.count(
                source_owner,
                candidates,
            ),
        }
    }
}

} // verus!
