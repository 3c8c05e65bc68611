use vstd::prelude::*;

use crate::entity_filter::{EntityFilter, FilterCandidate, selected_indices};
use crate::ids::PlayerId;

verus! {

/// The reach of a buff source; its distance is a matter of the game's geometry.
#[derive(Debug, Clone, Copy, PartialEq, Eq, Structural)]
pub enum BuffRange {
    Default,
}

impl Default for BuffRange {
    fn default() -> (r: Self)
        ensures
            r == BuffRange::Default,
    {
        BuffRange::Default
    }
}

/// How many times a buff source applies its buff each tick.
#[derive(Debug, Clone)]
pub enum BuffCondition {
    /// Once.
    AlwaysSingle,
    /// Once for each entity the filter selects.
    EntityFilter(EntityFilter<BuffRange>),
}

impl Default for BuffCondition {
    fn default() -> (r: Self)
        ensures
            r is AlwaysSingle,
    {
        BuffCondition::AlwaysSingle
    }
}

/// Which entities a buff source gives its buff to.
#[derive(Debug, Clone)]
pub enum BuffTargetFilter {
    /// The source itself.
    Me,
    /// Every entity the filter selects.
    EntityFilter(EntityFilter<BuffRange>),
    /// Every entity the filter selects that is in its spawn frame.
    OnSpawn(EntityFilter<BuffRange>),
}

impl BuffCondition {
    /// How many times the buff applies, seen from a source owned by `source_owner` among
    /// `candidates`.
    pub open spec fn spec_apply_count(
        self,
        source_owner: PlayerId,
        candidates: Seq<FilterCandidate>,
    ) -> nat {
        match self {
            BuffCondition::AlwaysSingle => 1,
            BuffCondition::EntityFilter(filter) => filter.spec_count(source_owner, candidates),
        }
    }

    /// How many times the buff is applied this tick.
    pub fn apply_count(&self, source_owner: PlayerId, candidates: &Vec<FilterCandidate>) -> (r:
        usize)
        ensures
            r == self.spec_apply_count(source_owner, candidates@),
    {
        match self {
            BuffCondition::AlwaysSingle => 1,
            BuffCondition::EntityFilter(filter) => filter.count(source_owner, candidates),
        }
    }
}

impl BuffTargetFilter {
    /// The candidates, by index, that receive the buff; nothing stands for the source itself.
    pub open spec fn spec_targets(
        self,
        source_owner: PlayerId,
        candidates: Seq<FilterCandidate>,
    ) -> Option<Seq<usize>> {
        match self {
            BuffTargetFilter::Me => None,
            BuffTargetFilter::EntityFilter(filter) => Some(
                selected_indices(&filter, source_owner, candidates, false),
            ),
            BuffTargetFilter::OnSpawn(filter) => Some(
                selected_indices(&filter, source_owner, candidates, true),
            ),
        }
    }

    /// The candidates, by index, that receive the buff; `None` stands for the source itself.
    pub fn targets(&self, source_owner: PlayerId, candidates: &Vec<FilterCandidate>) -> (r: Option<
        Vec<usize>,
    >)
        ensures
            match r {
                None => self.spec_targets(source_owner, candidates@) is None,
                Some(v) => self.spec_targets(source_owner, candidates@) == Some(v@),
            },
    {
        match self {
            BuffTargetFilter::Me => None,
            BuffTargetFilter::EntityFilter(filter) => Some(filter.select(source_owner, candidates, false)),
            BuffTargetFilter::OnSpawn(filter) => Some(filter.select(source_owner, candidates, true)),
        }
    }
}

} // verus!
