use vstd::prelude::*;

use crate::component_attack::TargetPool;
use crate::entity::{EntityState, EntityTag};
use crate::enum_flags::EnumFlags;
use crate::ids::PlayerId;

verus! {

/// Selects entities around a source entity: within a range, in a pool relative to the source's
/// owner, and with a tag among a set. A missing part selects everything.
#[derive(Debug, Clone)]
pub struct EntityFilter<Range: Clone> {
    pub range_filter: Option<Range>,
    pub pool_filter: Option<TargetPool>,
    pub tag_filter: Option<EnumFlags<EntityTag>>,
}

impl<Range: Clone> Default for EntityFilter<Range> {
    fn default() -> (r: Self)
        ensures
            r.range_filter is None,
            r.pool_filter is None,
            r.tag_filter is None,
    {
        Self { range_filter: None, pool_filter: None, tag_filter: None }
    }
}

/// What a filter reads of an entity it may select. `beyond_range` says whether the entity lies
/// farther from the source than the range of the filter, if the filter has a range.
#[derive(Debug, Clone, Copy, PartialEq, Eq, Structural)]
pub struct FilterCandidate {
    pub owner: PlayerId,
    pub tag: EntityTag,
    pub state: EntityState,
    pub beyond_range: bool,
}

impl<Range: Clone> EntityFilter<Range> {
    /// Whether the filter selects `other`, seen from an entity owned by `source_owner`.
    pub open spec fn spec_predicate(self, source_owner: PlayerId, other: FilterCandidate) -> bool {
        let out_of_range = self.range_filter is Some && other.beyond_range;
        let out_of_pool = match self.pool_filter {
            Some(pool) => !pool.spec_in_pool(source_owner, other.owner),
            None => false,
        };
        let out_of_tag_filter = match self.tag_filter {
            Some(tag_filter) => !tag_filter.contains(other.tag),
            None => false,
        };
        !out_of_range && !out_of_pool && !out_of_tag_filter
    }

    /// Whether the filter keeps `other`, seen from an entity of `source_owner`.
    pub fn predicate(&self, source_owner: PlayerId, other: &FilterCandidate) -> (r: bool)
        ensures
            r == self.spec_predicate(source_owner, *other),
    {
        let out_of_range = self.range_filter.is_some() && other.beyond_range;
        let out_of_pool = match &self.pool_filter {
            Some(pool) => !pool.in_pool(source_owner, other.owner),
            None => false,
        };
        let out_of_tag_filter = match &self.tag_filter {
            Some(tag_filter) => !tag_filter.is_set(&other.tag),
            None => false,
        };
        !out_of_range && !out_of_pool && !out_of_tag_filter
    }

    /// How many of `candidates` the filter selects.
    pub open spec fn spec_count(
        self,
        source_owner: PlayerId,
        candidates: Seq<FilterCandidate>,
    ) -> nat
        decreases candidates.len(),
    {
        if candidates.len() == 0 {
            0
        } else {
            self.spec_count(source_owner, candidates.drop_last()) + if self.spec_predicate(
                source_owner,
                candidates.last(),
            ) {
                1nat
            } else {
                0nat
            }
        }
    }

    /// Counts the candidates the filter selects.
    pub fn count(&self, source_owner: PlayerId, candidates: &Vec<FilterCandidate>) -> (r: usize)
        ensures
            r == self.spec_count(source_owner, candidates@),
    {
        let mut n: usize = 0;
        let mut i: usize = 0;
        while i < candidates.len()
            invariant
                i <= candidates@.len(),
                n == self.spec_count(source_owner, candidates@.take(i as int)),
                n <= i,
            decreases candidates@.len() - i,
        {
            assert(candidates@.take(i + 1).drop_last() =~= candidates@.take(i as int));
            if self.predicate(source_owner, &candidates[i]) {
                n = n + 1;
            }
            i = i + 1;
        }
        assert(candidates@.take(candidates@.len() as int) =~= candidates@);
        n
    }

    /// The indices, in order, of the candidates the filter selects; with `spawned_only`, only
    /// those among them that are in their spawn frame.
    pub fn select(
        &self,
        source_owner: PlayerId,
        candidates: &Vec<FilterCandidate>,
        spawned_only: bool,
    ) -> (r: Vec<usize>)
        ensures
            r@ == selected_indices(self, source_owner, candidates@, spawned_only),
    {
        let mut r: Vec<usize> = Vec::new();
        let mut i: usize = 0;
        while i < candidates.len()
            invariant
                i <= candidates@.len(),
                r@ == selected_indices(self, source_owner, candidates@.take(i as int), spawned_only),
            decreases candidates@.len() - i,
        {
            assert(candidates@.take(i + 1).drop_last() =~= candidates@.take(i as int));
            if self.predicate(source_owner, &candidates[i]) && (!spawned_only || candidates[i].state
                == EntityState::SpawnFrame) {
                r.push(i);
            }
            i = i + 1;
        }
        assert(candidates@.take(candidates@.len() as int) =~= candidates@);
        r
    }
}

/// The indices, in order, of the candidates a filter selects, keeping only entities in their
/// spawn frame when `spawned_only`.
pub open spec fn selected_indices<Range: Clone>(
    filter: &EntityFilter<Range>,
    source_owner: PlayerId,
    candidates: Seq<FilterCandidate>,
    spawned_only: bool,
) -> Seq<usize>
    decreases candidates.len(),
{
    if candidates.len() == 0 {
        seq![]
    } else {
        let rest = selected_indices(filter, source_owner, candidates.drop_last(), spawned_only);
        let last = candidates.last();
        if filter.spec_predicate(source_owner, last) && (!spawned_only || last.state
            == EntityState::SpawnFrame) {
            rest.push((candidates.len() - 1) as usize)
        } else {
            rest
        }
    }
}

/// A filter with no part selects every candidate, and a count never exceeds the number of
/// candidates.
pub proof fn lemma_count_bounds<Range: Clone>(
    filter: EntityFilter<Range>,
    source_owner: PlayerId,
    candidates: Seq<FilterCandidate>,
)
    ensures
        filter.spec_count(source_owner, candidates) <= candidates.len(),
        filter.range_filter is None && filter.pool_filter is None && filter.tag_filter is None
            ==> filter.spec_count(source_owner, candidates) == candidates.len(),
    decreases candidates.len(),
{
    if candidates.len() > 0 {
        lemma_count_bounds(filter, source_owner, candidates.drop_last());
    }
}

/// A selection lists, once each and in increasing order, exactly the candidates the filter keeps;
/// with `spawned_only` every selected candidate is in its spawn frame, so an entity still in its
/// creation frame is never selected. (The candidates are indexed by `usize`, so there are at most
/// `usize::MAX` of them, as in any `Vec`.)
pub proof fn lemma_select_picks_kept_candidates<Range: Clone>(
    filter: EntityFilter<Range>,
    source_owner: PlayerId,
    candidates: Seq<FilterCandidate>,
    spawned_only: bool,
)
    requires
        candidates.len() <= usize::MAX,
    ensures
        forall|k: int|
            0 <= k < selected_indices(&filter, source_owner, candidates, spawned_only).len() ==> {
                let i = #[trigger] selected_indices(&filter, source_owner, candidates, spawned_only)[k];
                &&& i < candidates.len()
                &&& filter.spec_predicate(source_owner, candidates[i as int])
                &&& spawned_only ==> candidates[i as int].state == EntityState::SpawnFrame
            },
        forall|i: int|
            0 <= i < candidates.len() && filter.spec_predicate(source_owner, #[trigger] candidates[i])
                && (!spawned_only || candidates[i].state == EntityState::SpawnFrame)
                ==> selected_indices(&filter, source_owner, candidates, spawned_only).contains(
                i as usize,
            ),
        forall|k: int, l: int|
            0 <= k < l < selected_indices(&filter, source_owner, candidates, spawned_only).len()
                ==> selected_indices(&filter, source_owner, candidates, spawned_only)[k]
                < selected_indices(&filter, source_owner, candidates, spawned_only)[l],
    decreases candidates.len(),
{
    if candidates.len() > 0 {
        let front = candidates.drop_last();
        lemma_select_picks_kept_candidates(filter, source_owner, front, spawned_only);
        let rest = selected_indices(&filter, source_owner, front, spawned_only);
        let sel = selected_indices(&filter, source_owner, candidates, spawned_only);
        let n = candidates.len() - 1;
        let last = candidates.last();
        let keeps_last = filter.spec_predicate(source_owner, last) && (!spawned_only || last.state
            == EntityState::SpawnFrame);
        if keeps_last {
            assert(sel == rest.push(n as usize));
        } else {
            assert(sel == rest);
        }
        assert forall|k: int| 0 <= k < rest.len() implies #[trigger] rest[k] < front.len() by {
            let i = rest[k];
        }
        assert forall|k: int| 0 <= k < sel.len() implies {
            let i = #[trigger] sel[k];
            &&& i < candidates.len()
            &&& filter.spec_predicate(source_owner, candidates[i as int])
            &&& spawned_only ==> candidates[i as int].state == EntityState::SpawnFrame
        } by {
            if k < rest.len() {
                assert(sel[k] == rest[k]);
                let i = rest[k];
                assert(i < front.len());
                assert(filter.spec_predicate(source_owner, front[i as int]));
                assert(front[i as int] == candidates[i as int]);
            } else {
                assert(sel[k] == n as usize);
                assert(candidates[n] == last);
            }
        }
        assert forall|i: int|
            0 <= i < candidates.len() && filter.spec_predicate(source_owner, #[trigger] candidates[i])
                && (!spawned_only || candidates[i].state == EntityState::SpawnFrame) implies sel.contains(
            i as usize,
        ) by {
            if i < front.len() {
                assert(front[i] == candidates[i]);
                assert(rest.contains(i as usize));
                let k = choose|k: int| 0 <= k < rest.len() && rest[k] == i as usize;
                assert(sel[k] == rest[k]);
            } else {
                assert(candidates[i] == last);
                assert(sel[sel.len() - 1] == i as usize);
            }
        }
        assert forall|k: int, l: int| 0 <= k < l < sel.len() implies sel[k] < sel[l] by {
            assert(sel[k] == rest[k]);
            assert(rest[k] < front.len());
            if l < rest.len() {
                assert(sel[l] == rest[l]);
            } else {
                assert(sel[l] == n as usize);
            }
        }
    }
}

} // verus!
