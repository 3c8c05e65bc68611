use vstd::prelude::*;

use crate::component_spy::Spy;
use crate::entity::EntityTag;
use crate::ids::EntityId;

verus! {

/// Whether the entity `entity_id` (of kind `entity_tag`, a spy when `entity_spy` is given) can
/// pick the entity of kind `other_tag` with spy part `other_spy` as a target. A hidden spy only
/// goes for towers and bases; a spy target records the meeting and is seen once it has run out of
/// hiding. The meeting is recorded only when the attacker is not a hidden spy turning away a
/// unit or bullet.
pub fn can_find_target(
    entity_id: EntityId,
    entity_tag: EntityTag,
    entity_spy: Option<&Spy>,
    other_tag: EntityTag,
    other_spy: Option<&mut Spy>,
) -> (r: bool)
    ensures
        ({
            let attacker_hidden = match entity_spy {
                Some(spy) => Spy::spec_is_hidden(spy.is_hidden_from@, spy.hide_capacity),
                None => false,
            };
            let turned_away = attacker_hidden && other_tag != EntityTag::Tower && other_tag
                != EntityTag::Base;
            &&& turned_away ==> !r
            &&& !turned_away ==> match other_spy {
                None => r,
                Some(spy) => {
                    let met = if entity_tag == EntityTag::Unit {
                        spy.is_hidden_from@.insert(entity_id.0)
                    } else {
                        spy.is_hidden_from@
                    };
                    &&& r == !Spy::spec_is_hidden(met, spy.hide_capacity)
                    &&& final(spy).is_hidden_from@ == met
                    &&& final(spy).hide_capacity == spy.hide_capacity
                },
            }
            &&& turned_away ==> match other_spy {
                None => true,
                Some(spy) => *final(spy) == *spy,
            }
        }),
{
    if let Some(entity_spy) = entity_spy {
        if entity_spy.is_hidden() && other_tag != EntityTag::Tower && other_tag != EntityTag::Base {
            return false;
        }
    }
    let Some(spy) = other_spy else {
        return true;
    };
    !spy.can_hide_from(entity_id, entity_tag)
}

} // verus!
