use std::collections::HashSet;
use vstd::prelude::*;

use crate::entity::EntityTag;
use crate::ids::EntityId;

verus! {

broadcast use vstd::std_specs::hash::group_hash_axioms;

/// An entity that stays unseen by the first few enemy units it meets. The units it has met are
/// held by the `u64` inside their `EntityId`.
#[derive(Debug)]
pub struct Spy {
    pub hide_capacity: u32,
    pub is_hidden_from: HashSet<u64>,
}

impl Spy {
    /// Whether a spy that has met the units in `met` with capacity `capacity` is still hidden.
    pub open spec fn spec_is_hidden(met: Set<u64>, capacity: u32) -> bool {
        met.len() <= capacity
    }

    /// Whether the record of met units is a finite set, as it is for every spy made by `new`
    /// and changed only by `can_hide_from`.
    pub open spec fn wf(&self) -> bool {
        self.is_hidden_from@.finite()
    }

    /// A spy that has met nobody yet.
    pub fn new(hide_capacity: u32) -> (r: Self)
        ensures
            r.hide_capacity == hide_capacity,
            r.is_hidden_from@ == Set::<u64>::empty(),
            r.wf(),
    {
        Self { hide_capacity, is_hidden_from: HashSet::new() }
    }

    /// Whether the spy is still unseen.
    pub fn is_hidden(&self) -> (r: bool)
        ensures
            r == Self::spec_is_hidden(self.is_hidden_from@, self.hide_capacity),
    {
        self.is_hidden_from.len() <= self.hide_capacity as usize
    }

    /// Records a meeting with a unit (other kinds of entity are not counted) and says whether the
    /// spy is still hidden afterwards.
    pub fn can_hide_from(&mut self, entity_id: EntityId, entity_tag: EntityTag) -> (r: bool)
        ensures
            final(self).hide_capacity == old(self).hide_capacity,
            final(self).is_hidden_from@ == if entity_tag == EntityTag::Unit {
                old(self).is_hidden_from@.insert(entity_id.0)
            } else {
                old(self).is_hidden_from@
            },
            r == Self::spec_is_hidden(final(self).is_hidden_from@, final(self).hide_capacity),
            old(self).wf() ==> final(self).wf(),
            old(self).wf() && !Self::spec_is_hidden(old(self).is_hidden_from@, old(self).hide_capacity)
                ==> !r && !Self::spec_is_hidden(final(self).is_hidden_from@, final(self).hide_capacity),
            old(self).is_hidden_from@.contains(entity_id.0) ==> {
                &&& final(self).is_hidden_from@ == old(self).is_hidden_from@
                &&& r == Self::spec_is_hidden(old(self).is_hidden_from@, old(self).hide_capacity)
            },
    {
        proof {
            if old(self).is_hidden_from@.contains(entity_id.0) {
                lemma_meeting_again_costs_nothing(old(self).is_hidden_from@, entity_id.0);
            }
            if old(self).wf() && !Self::spec_is_hidden(old(self).is_hidden_from@, old(self).hide_capacity) {
                lemma_exposure_is_permanent(old(self).is_hidden_from@, entity_id.0, old(self).hide_capacity);
            }
        }
        if entity_tag == EntityTag::Unit {
            self.is_hidden_from.insert(entity_id.0);
        }
        self.is_hidden()
    }
}

/// Meeting the same unit again does not use up any more of the spy's capacity.
pub proof fn lemma_meeting_again_costs_nothing(met: Set<u64>, id: u64)
    requires
        met.contains(id),
    ensures
        met.insert(id) == met,
{
    assert(met.insert(id) =~= met);
}

/// Once a spy has been exposed, further meetings never hide it again.
pub proof fn lemma_exposure_is_permanent(met: Set<u64>, id: u64, capacity: u32)
    requires
        met.finite(),
        !Spy::spec_is_hidden(met, capacity),
    ensures
        !Spy::spec_is_hidden(met.insert(id), capacity),
{
    if !met.contains(id) {
        assert(met.insert(id).len() == met.len() + 1);
    } else {
        assert(met.insert(id) =~= met);
    }
}

} // verus!
