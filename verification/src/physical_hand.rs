use vstd::prelude::*;

use crate::card::CardInstance;
use crate::ids::CardInstanceId;

verus! {

/// The cards shown once `card` from the server's hand is taken in: the first shown card with
/// its identifier takes the new instance and keeps how it is drawn; when there is none, the card
/// is added at the end, drawn as `fresh`.
pub open spec fn absorb_card<Look>(
    shown: Seq<(CardInstance, Look)>,
    card: CardInstance,
    fresh: Look,
) -> Seq<(CardInstance, Look)>
    decreases shown.len(),
{
    if shown.len() == 0 {
        seq![(card, fresh)]
    } else if shown[0].0.id == card.id {
        shown.update(0, (card, shown[0].1))
    } else {
        seq![shown[0]] + absorb_card(shown.drop_first(), card, fresh)
    }
}

/// The cards shown once every card of `server_hand` is taken in, in order.
pub open spec fn absorb_all<Look>(
    shown: Seq<(CardInstance, Look)>,
    server_hand: Seq<CardInstance>,
    fresh: Look,
) -> Seq<(CardInstance, Look)>
    decreases server_hand.len(),
{
    if server_hand.len() == 0 {
        shown
    } else {
        absorb_card(absorb_all(shown, server_hand.drop_last(), fresh), server_hand.last(), fresh)
    }
}

/// Whether the server's hand holds a card with identifier `id`.
pub open spec fn in_server_hand(server_hand: Seq<CardInstance>, id: CardInstanceId) -> bool {
    exists|j: int| 0 <= j < server_hand.len() && server_hand[j].id == id
}

/// The shown cards whose identifier the server's hand holds, in their order.
pub open spec fn kept_in_hand<Look>(
    shown: Seq<(CardInstance, Look)>,
    server_hand: Seq<CardInstance>,
) -> Seq<(CardInstance, Look)>
    decreases shown.len(),
{
    if shown.len() == 0 {
        shown
    } else {
        let rest = kept_in_hand(shown.drop_last(), server_hand);
        if in_server_hand(server_hand, shown.last().0.id) {
            rest.push(shown.last())
        } else {
            rest
        }
    }
}

/// The cards shown after syncing with the server's hand.
pub open spec fn synced<Look>(
    shown: Seq<(CardInstance, Look)>,
    server_hand: Seq<CardInstance>,
    fresh: Look,
) -> Seq<(CardInstance, Look)> {
    kept_in_hand(absorb_all(shown, server_hand, fresh), server_hand)
}

/// Taking in a card past shown cards of other identifiers leaves them in front.
proof fn lemma_absorb_card_at<Look>(
    shown: Seq<(CardInstance, Look)>,
    card: CardInstance,
    fresh: Look,
    j: int,
)
    requires
        0 <= j <= shown.len(),
        forall|k: int| 0 <= k < j ==> (#[trigger] shown[k]).0.id != card.id,
    ensures
        absorb_card(shown, card, fresh) == shown.take(j) + absorb_card(shown.skip(j), card, fresh),
    decreases j,
{
    if j == 0 {
        assert(shown.skip(0) =~= shown);
        assert(shown.take(0) + absorb_card(shown, card, fresh) =~= absorb_card(shown, card, fresh));
    } else {
        let rest = shown.drop_first();
        assert forall|k: int| 0 <= k < j - 1 implies (#[trigger] rest[k]).0.id != card.id by {
            assert(rest[k] == shown[k + 1]);
        }
        lemma_absorb_card_at(rest, card, fresh, j - 1);
        assert(shown[0].0.id != card.id);
        assert(rest.skip(j - 1) =~= shown.skip(j));
        assert(shown.take(j) =~= seq![shown[0]] + rest.take(j - 1));
        assert(seq![shown[0]] + (rest.take(j - 1) + absorb_card(shown.skip(j), card, fresh))
            =~= shown.take(j) + absorb_card(shown.skip(j), card, fresh));
    }
}

/// Takes `card` from the server's hand into the shown cards.
fn absorb_card_into<Look: Copy>(shown: &mut Vec<(CardInstance, Look)>, card: CardInstance, fresh: Look)
    ensures
        final(shown)@ == absorb_card(old(shown)@, card, fresh),
{
    let ghost before = shown@;
    let mut j: usize = 0;
    let mut found = false;
    while j < shown.len() && !found
        invariant
            j <= shown@.len(),
            shown@ == before,
            forall|k: int| 0 <= k < j ==> (#[trigger] shown@[k]).0.id != card.id,
            found ==> j < shown@.len() && shown@[j as int].0.id == card.id,
        decreases shown@.len() - j + if found { 0int } else { 1int },
    {
        if shown[j].0.id == card.id {
            found = true;
        } else {
            j = j + 1;
        }
    }
    proof {
        lemma_absorb_card_at(before, card, fresh, j as int);
    }
    if found {
        let look = shown[j].1;
        proof {
            let rest = before.skip(j as int);
            assert(rest[0] == before[j as int]);
            assert(absorb_card(rest, card, fresh) == rest.update(0, (card, rest[0].1)));
        }
        shown.set(j, (card, look));
        assert(shown@ =~= before.take(j as int) + before.skip(j as int).update(0, (card, look)));
    } else {
        assert(before.skip(j as int) =~= Seq::<(CardInstance, Look)>::empty());
        shown.push((card, fresh));
        assert(shown@ =~= before.take(j as int) + seq![(card, fresh)]);
    }
}

/// Whether the server's hand holds a card with identifier `id`.
fn holds_id(server_hand: &Vec<CardInstance>, id: CardInstanceId) -> (r: bool)
    ensures
        r == in_server_hand(server_hand@, id),
{
    let mut j: usize = 0;
    while j < server_hand.len()
        invariant
            j <= server_hand@.len(),
            forall|m: int| 0 <= m < j ==> (#[trigger] server_hand@[m]).id != id,
        decreases server_hand@.len() - j,
    {
        if server_hand[j].id == id {
            return true;
        }
        j = j + 1;
    }
    false
}

/// Makes the shown cards those of the server's hand: a card already shown takes its instance
/// from the server and keeps how it is drawn, a new card is added at the end drawn as `fresh`,
/// and a shown card the server's hand no longer holds is dropped.
pub fn sync_shown_cards<Look: Copy>(
    shown: &mut Vec<(CardInstance, Look)>,
    server_hand: &Vec<CardInstance>,
    fresh: Look,
)
    ensures
        final(shown)@ == synced(old(shown)@, server_hand@, fresh),
{
    let ghost start = shown@;
    let mut i: usize = 0;
    while i < server_hand.len()
        invariant
            i <= server_hand@.len(),
            shown@ == absorb_all(start, server_hand@.take(i as int), fresh),
        decreases server_hand@.len() - i,
    {
        assert(server_hand@.take(i + 1).drop_last() =~= server_hand@.take(i as int));
        absorb_card_into(shown, server_hand[i], fresh);
        i = i + 1;
    }
    assert(server_hand@.take(i as int) =~= server_hand@);
    let ghost absorbed = shown@;
    let mut kept: Vec<(CardInstance, Look)> = Vec::new();
    let mut k: usize = 0;
    while k < shown.len()
        invariant
            k <= shown@.len(),
            shown@ == absorbed,
            kept@ == kept_in_hand(absorbed.take(k as int), server_hand@),
        decreases shown@.len() - k,
    {
        let entry = shown[k];
        assert(absorbed.take(k + 1).drop_last() =~= absorbed.take(k as int));
        if holds_id(server_hand, entry.0.id) {
            kept.push(entry);
        }
        k = k + 1;
    }
    assert(absorbed.take(k as int) =~= absorbed);
    *shown = kept;
}

/// Whether some shown card has identifier `id`.
pub open spec fn shows_id<Look>(shown: Seq<(CardInstance, Look)>, id: CardInstanceId) -> bool {
    exists|i: int| 0 <= i < shown.len() && (#[trigger] shown[i]).0.id == id
}

/// Taking in a card shows it, and keeps showing every identifier shown before.
proof fn lemma_absorb_card_ids<Look>(shown: Seq<(CardInstance, Look)>, card: CardInstance, fresh: Look)
    ensures
        shows_id(absorb_card(shown, card, fresh), card.id),
        forall|id: CardInstanceId|
            shows_id(shown, id) ==> #[trigger] shows_id(absorb_card(shown, card, fresh), id),
    decreases shown.len(),
{
    let after = absorb_card(shown, card, fresh);
    if shown.len() == 0 {
        assert(after[0].0.id == card.id);
    } else if shown[0].0.id == card.id {
        assert(after[0].0.id == card.id);
        assert forall|id: CardInstanceId| shows_id(shown, id) implies #[trigger] shows_id(after, id) by {
            let i = choose|i: int| 0 <= i < shown.len() && (#[trigger] shown[i]).0.id == id;
            assert(after[i].0.id == id);
        }
    } else {
        let rest = shown.drop_first();
        lemma_absorb_card_ids(rest, card, fresh);
        let rest_after = absorb_card(rest, card, fresh);
        assert(after == seq![shown[0]] + rest_after);
        let i = choose|i: int| 0 <= i < rest_after.len() && (#[trigger] rest_after[i]).0.id == card.id;
        assert(after[i + 1].0.id == card.id);
        assert forall|id: CardInstanceId| shows_id(shown, id) implies #[trigger] shows_id(after, id) by {
            let i = choose|i: int| 0 <= i < shown.len() && (#[trigger] shown[i]).0.id == id;
            if i == 0 {
                assert(after[0].0.id == id);
            } else {
                assert(rest[i - 1].0.id == id);
                assert(shows_id(rest, id));
                assert(shows_id(rest_after, id));
                let m = choose|m: int| 0 <= m < rest_after.len() && (#[trigger] rest_after[m]).0.id == id;
                assert(after[m + 1].0.id == id);
            }
        }
    }
}

/// Taking in a whole hand shows every identifier it holds.
proof fn lemma_absorb_all_ids<Look>(
    shown: Seq<(CardInstance, Look)>,
    server_hand: Seq<CardInstance>,
    fresh: Look,
)
    ensures
        forall|j: int|
            0 <= j < server_hand.len() ==> shows_id(
                absorb_all(shown, server_hand, fresh),
                #[trigger] server_hand[j].id,
            ),
    decreases server_hand.len(),
{
    if server_hand.len() > 0 {
        let front = server_hand.drop_last();
        lemma_absorb_all_ids(shown, front, fresh);
        let before = absorb_all(shown, front, fresh);
        lemma_absorb_card_ids(before, server_hand.last(), fresh);
        assert forall|j: int| 0 <= j < server_hand.len() implies shows_id(
            absorb_all(shown, server_hand, fresh),
            #[trigger] server_hand[j].id,
        ) by {
            if j < server_hand.len() - 1 {
                assert(front[j] == server_hand[j]);
                assert(shows_id(before, front[j].id));
            }
        }
    }
}

/// Keeping the cards the hand holds keeps exactly those.
proof fn lemma_kept_in_hand<Look>(shown: Seq<(CardInstance, Look)>, server_hand: Seq<CardInstance>)
    ensures
        forall|i: int|
            0 <= i < kept_in_hand(shown, server_hand).len() ==> in_server_hand(
                server_hand,
                (#[trigger] kept_in_hand(shown, server_hand)[i]).0.id,
            ),
        forall|id: CardInstanceId|
            shows_id(shown, id) && in_server_hand(server_hand, id) ==> #[trigger] shows_id(
                kept_in_hand(shown, server_hand),
                id,
            ),
    decreases shown.len(),
{
    if shown.len() > 0 {
        let front = shown.drop_last();
        lemma_kept_in_hand(front, server_hand);
        let kept = kept_in_hand(shown, server_hand);
        let kept_front = kept_in_hand(front, server_hand);
        assert forall|i: int| 0 <= i < kept.len() implies in_server_hand(
            server_hand,
            (#[trigger] kept[i]).0.id,
        ) by {
            if i < kept_front.len() {
                assert(kept[i] == kept_front[i]);
            }
        }
        assert forall|id: CardInstanceId|
            shows_id(shown, id) && in_server_hand(server_hand, id) implies #[trigger] shows_id(
            kept,
            id,
        ) by {
            let i = choose|i: int| 0 <= i < shown.len() && (#[trigger] shown[i]).0.id == id;
            if i == shown.len() - 1 {
                assert(kept[kept.len() - 1].0.id == id);
            } else {
                assert(front[i].0.id == id);
                assert(shows_id(front, id));
                assert(shows_id(kept_front, id));
                let m = choose|m: int| 0 <= m < kept_front.len() && (#[trigger] kept_front[m]).0.id == id;
                assert(kept[m] == kept_front[m]);
            }
        }
    }
}

/// After syncing, the cards shown are those of the server's hand: every shown card is in the
/// hand, and every card of the hand is shown.
pub proof fn lemma_sync_shows_server_hand<Look>(
    shown: Seq<(CardInstance, Look)>,
    server_hand: Seq<CardInstance>,
    fresh: Look,
)
    ensures
        forall|i: int|
            0 <= i < synced(shown, server_hand, fresh).len() ==> in_server_hand(
                server_hand,
                (#[trigger] synced(shown, server_hand, fresh)[i]).0.id,
            ),
        forall|j: int|
            0 <= j < server_hand.len() ==> shows_id(
                synced(shown, server_hand, fresh),
                #[trigger] server_hand[j].id,
            ),
{
    let absorbed = absorb_all(shown, server_hand, fresh);
    lemma_absorb_all_ids(shown, server_hand, fresh);
    lemma_kept_in_hand(absorbed, server_hand);
    assert forall|j: int| 0 <= j < server_hand.len() implies shows_id(
        synced(shown, server_hand, fresh),
        #[trigger] server_hand[j].id,
    ) by {
        assert(shows_id(absorbed, server_hand[j].id));
        assert(in_server_hand(server_hand, server_hand[j].id));
    }
}

} // verus!
