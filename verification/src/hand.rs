use vstd::prelude::*;
use vstd::multiset::Multiset;

use crate::card::{Card, CardInstance, card_energy_cost};
use crate::gameplay_config::MAX_HAND_SIZE;
use crate::ids::CardInstanceId;

verus! {

broadcast use vstd::seq_lib::group_to_multiset_ensures, vstd::multiset::group_multiset_axioms;

/// Calls `rand::seq::SliceRandom::shuffle` on the cards with the thread-local generator of
/// `rand`. That method swaps elements (a Fisher-Yates shuffle), so the cards that come out are
/// those that went in, as a multiset; their order is left to chance.
#[verifier::external_body]
fn shuffle_cards(cards: &mut Vec<CardInstance>)
    ensures
        final(cards)@.to_multiset() == old(cards)@.to_multiset(),
{
    rand::seq::SliceRandom::shuffle(cards.as_mut_slice(), &mut rand::thread_rng())
}

/// The most energy a hand can hold.
pub const MAX_ENERGY: i32 = 10;

/// A player's cards: those in hand, those still in the deck and those already played, with the
/// energy available to play them. Cards are drawn from the end of the deck.
#[derive(Debug, Clone)]
pub struct Hand {
    pub energy: i32,
    pub cards: Vec<CardInstance>,
    pub deck: Vec<CardInstance>,
    pub played: Vec<CardInstance>,
}

/// Whether a card in hand can be played as the card `card_id` with `energy` available.
pub open spec fn playable(card_instance: CardInstance, card_id: CardInstanceId, energy: i32) -> bool {
    card_instance.id == card_id && card_energy_cost(card_instance.card) <= energy
}

impl Hand {
    /// Every card the player owns, wherever it is.
    pub open spec fn all_cards(self) -> Multiset<CardInstance> {
        self.cards@.to_multiset().add(self.deck@.to_multiset()).add(self.played@.to_multiset())
    }

    /// A new hand holding `deck` shuffled, each card given a fresh identifier, with nothing drawn,
    /// nothing played and no energy.
    pub fn new(deck: Vec<Card>) -> (r: Self)
        ensures
            r.energy == 0,
            r.cards@.len() == 0,
            r.played@.len() == 0,
            exists|instances: Seq<CardInstance>|
                {
                    &&& instances.len() == deck@.len()
                    &&& forall|i: int|
                        0 <= i < deck@.len() ==> (#[trigger] instances[i]).card == deck@[i]
                    &&& r.deck@.to_multiset() == #[trigger] instances.to_multiset()
                },
    {
        let mut instances: Vec<CardInstance> = Vec::new();
        let mut i: usize = 0;
        while i < deck.len()
            invariant
                i <= deck@.len(),
                instances@.len() == i,
                forall|j: int| 0 <= j < i ==> (#[trigger] instances@[j]).card == deck@[j],
            decreases deck@.len() - i,
        {
            instances.push(CardInstance { id: CardInstanceId::new(), card: deck[i] });
            i = i + 1;
        }
        shuffle_cards(&mut instances);
        Self { energy: 0, cards: Vec::new(), deck: instances, played: Vec::new() }
    }

    /// Draws the last card of the deck into the hand, unless the hand is full. An empty deck is
    /// first refilled with the played cards, shuffled.
    pub fn draw(&mut self) -> (r: Option<CardInstance>)
        ensures
            Self::draw_outcome(*old(self), *final(self), r),
            final(self).all_cards() == old(self).all_cards(),
    {
        if self.cards.len() >= MAX_HAND_SIZE {
            return None;
        }
        if self.deck.len() == 0 {
            let ghost played_before = self.played@;
            self.deck.append(&mut self.played);
            assert(self.deck@ =~= played_before);
            shuffle_cards(&mut self.deck);
            assert(self.deck@.to_multiset().len() == played_before.to_multiset().len());
            assert(self.deck@.len() == played_before.len());
        }
        let ghost source = self.deck@;
        let card = match self.deck.pop() {
            Some(card) => card,
            None => {
                return None;
            },
        };
        assert(source =~= self.deck@.push(card));
        self.cards.push(card);
        proof {
            vstd::seq_lib::lemma_multiset_commutative(source, Seq::<CardInstance>::empty());
        }
        Some(card)
    }

    /// How drawing changes a hand and what it returns.
    pub open spec fn draw_outcome(before: Hand, after: Hand, r: Option<CardInstance>) -> bool {
        &&& after.energy == before.energy
        &&& before.cards@.len() >= MAX_HAND_SIZE ==> r is None && after == before
        &&& before.cards@.len() < MAX_HAND_SIZE && before.deck@.len() > 0 ==> {
            &&& r == Some(before.deck@.last())
            &&& after.cards@ == before.cards@.push(before.deck@.last())
            &&& after.deck@ == before.deck@.drop_last()
            &&& after.played@ == before.played@
        }
        &&& before.cards@.len() < MAX_HAND_SIZE && before.deck@.len() == 0 && before.played@.len()
            > 0 ==> {
            &&& r is Some
            &&& after.cards@ == before.cards@.push(r->0)
            &&& after.deck@.push(r->0).to_multiset() == before.played@.to_multiset()
            &&& after.played@.len() == 0
        }
        &&& before.cards@.len() < MAX_HAND_SIZE && before.deck@.len() == 0 && before.played@.len()
            == 0 ==> {
            &&& r is None
            &&& after.cards@ == before.cards@
            &&& after.deck@.len() == 0
            &&& after.played@.len() == 0
        }
    }

    /// Gains one energy, up to the maximum of the hand.
    pub fn gain_energy(&mut self)
        requires
            old(self).energy < i32::MAX,
        ensures
            final(self).energy == if old(self).energy + 1 < MAX_ENERGY {
                old(self).energy + 1
            } else {
                MAX_ENERGY as int
            },
            final(self).cards@ == old(self).cards@,
            final(self).deck@ == old(self).deck@,
            final(self).played@ == old(self).played@,
    {
        let next = self.energy + 1;
        self.energy = if next < MAX_ENERGY {
            next
        } else {
            MAX_ENERGY
        };
    }

    /// Whether the energy of the hand covers the cost of `card`.
    pub fn can_afford(&self, card: Card) -> (r: bool)
        ensures
            r == (card_energy_cost(card) <= self.energy),
    {
        card.energy_cost() <= self.energy
    }

    /// Plays the first card in hand with identifier `card_id` whose cost the energy covers: it
    /// moves to the played pile and its cost is paid.
    pub fn try_play(&mut self, card_id: CardInstanceId) -> (r: Option<Card>)
        ensures
            Self::play_outcome(*old(self), *final(self), card_id, r),
    {
        let Some(card_instance) = self.pop_playable(card_id) else {
            return None;
        };
        self.played.push(card_instance);
        self.energy = self.energy - card_instance.card.energy_cost();
        Some(card_instance.card)
    }

    /// The same as `try_play`.
    pub fn try_play_(&mut self, card_id: CardInstanceId) -> (r: Option<Card>)
        ensures
            Self::play_outcome(*old(self), *final(self), card_id, r),
    {
        let card_instance = self.pop_playable(card_id)?;
        self.played.push(card_instance);
        self.energy = self.energy - card_instance.card.energy_cost();
        Some(card_instance.card)
    }

    /// How playing the card `card_id` changes a hand and what it returns.
    pub open spec fn play_outcome(
        before: Hand,
        after: Hand,
        card_id: CardInstanceId,
        r: Option<Card>,
    ) -> bool {
        match r {
            Some(card) => exists|i: int|
                {
                    &&& 0 <= i < before.cards@.len()
                    &&& playable(before.cards@[i], card_id, before.energy)
                    &&& forall|j: int|
                        0 <= j < i ==> !playable(#[trigger] before.cards@[j], card_id, before.energy)
                    &&& card == before.cards@[i].card
                    &&& after.cards@ == before.cards@.remove(i)
                    &&& after.played@ == before.played@.push(before.cards@[i])
                    &&& after.deck@ == before.deck@
                    &&& after.energy == before.energy - card_energy_cost(card)
                },
            None => {
                &&& forall|j: int|
                    0 <= j < before.cards@.len() ==> !playable(
                        #[trigger] before.cards@[j],
                        card_id,
                        before.energy,
                    )
                &&& after.cards@ == before.cards@
                &&& after.deck@ == before.deck@
                &&& after.played@ == before.played@
                &&& after.energy == before.energy
            },
        }
    }

    /// Removes and returns the first card in hand that can be played as `card_id`.
    fn pop_playable(&mut self, card_id: CardInstanceId) -> (r: Option<CardInstance>)
        ensures
            final(self).deck@ == old(self).deck@,
            final(self).played@ == old(self).played@,
            final(self).energy == old(self).energy,
            match r {
                Some(c) => exists|i: int|
                    {
                        &&& 0 <= i < old(self).cards@.len()
                        &&& playable(old(self).cards@[i], card_id, old(self).energy)
                        &&& forall|j: int|
                            0 <= j < i ==> !playable(
                                #[trigger] old(self).cards@[j],
                                card_id,
                                old(self).energy,
                            )
                        &&& c == old(self).cards@[i]
                        &&& final(self).cards@ == old(self).cards@.remove(i)
                    },
                None => {
                    &&& forall|j: int|
                        0 <= j < old(self).cards@.len() ==> !playable(
                            #[trigger] old(self).cards@[j],
                            card_id,
                            old(self).energy,
                        )
                    &&& final(self).cards@ == old(self).cards@
                },
            },
    {
        let mut i: usize = 0;
        while i < self.cards.len()
            invariant
                i <= self.cards@.len(),
                self.cards@ == old(self).cards@,
                self.deck@ == old(self).deck@,
                self.played@ == old(self).played@,
                self.energy == old(self).energy,
                forall|j: int|
                    0 <= j < i ==> !playable(#[trigger] self.cards@[j], card_id, self.energy),
            decreases self.cards@.len() - i,
        {
            let candidate = self.cards[i];
            if candidate.id == card_id && candidate.card.energy_cost() <= self.energy {
                let c = self.cards.remove(i);
                return Some(c);
            }
            i = i + 1;
        }
        None
    }
}

/// Playing a card neither creates nor loses cards: everything the player owned before is still
/// somewhere in the hand, the deck or the played pile.
pub proof fn lemma_play_keeps_cards(before: Hand, after: Hand, card_id: CardInstanceId, r: Option<Card>)
    requires
        Hand::play_outcome(before, after, card_id, r),
    ensures
        after.all_cards() == before.all_cards(),
        after.energy >= 0 <== before.energy >= 0,
{
    if let Some(card) = r {
        let i = choose|i: int|
            {
                &&& 0 <= i < before.cards@.len()
                &&& playable(before.cards@[i], card_id, before.energy)
                &&& forall|j: int|
                    0 <= j < i ==> !playable(#[trigger] before.cards@[j], card_id, before.energy)
                &&& card == before.cards@[i].card
                &&& after.cards@ == before.cards@.remove(i)
                &&& after.played@ == before.played@.push(before.cards@[i])
                &&& after.deck@ == before.deck@
                &&& after.energy == before.energy - card_energy_cost(card)
            };
        assert(after.cards@.to_multiset() == before.cards@.to_multiset().remove(before.cards@[i]));
        assert(after.played@.to_multiset() == before.played@.to_multiset().insert(before.cards@[i]));
        assert(before.cards@.to_multiset().count(before.cards@[i]) > 0);
        assert(after.all_cards() =~= before.all_cards());
    } else {
        assert(after.all_cards() =~= before.all_cards());
    }
}

/// A draw never fills a hand beyond its limit, and draws a card whenever the hand has room and
/// the player has any card left in the deck or the played pile.
pub proof fn lemma_draw_respects_hand_limit(before: Hand, after: Hand, r: Option<CardInstance>)
    requires
        Hand::draw_outcome(before, after, r),
        before.cards@.len() <= MAX_HAND_SIZE,
    ensures
        after.cards@.len() <= MAX_HAND_SIZE,
        r is Some <==> (before.cards@.len() < MAX_HAND_SIZE && (before.deck@.len() > 0
            || before.played@.len() > 0)),
        r is Some ==> after.cards@.len() == before.cards@.len() + 1,
{
}

/// Energy gained never goes beyond the maximum of the hand once it is within it.
pub proof fn lemma_energy_stays_capped(energy: i32)
    requires
        0 <= energy <= MAX_ENERGY,
    ensures
        0 <= (if energy + 1 < MAX_ENERGY {
            energy + 1
        } else {
            MAX_ENERGY as int
        }) <= MAX_ENERGY,
{
}

} // verus!
