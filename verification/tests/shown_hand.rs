use common::card::{Card, CardInstance};
use common::ids::CardInstanceId;
use common::physical_hand::sync_shown_cards;

fn instance(id: u64, card: Card) -> CardInstance {
    CardInstance { id: CardInstanceId(id), card }
}

#[test]
fn sync_adds_new_cards_drawn_fresh() {
    let mut shown: Vec<(CardInstance, u32)> = vec![];
    let server = vec![instance(1, Card::Tower), instance(2, Card::Spy)];
    sync_shown_cards(&mut shown, &server, 0);
    assert_eq!(shown, vec![(instance(1, Card::Tower), 0), (instance(2, Card::Spy), 0)]);
}

#[test]
fn sync_keeps_look_of_shown_cards_and_drops_played_ones() {
    let mut shown: Vec<(CardInstance, u32)> = vec![
        (instance(1, Card::Tower), 7),
        (instance(2, Card::Spy), 8),
        (instance(3, Card::Wall), 9),
    ];
    let server = vec![instance(4, Card::Meteor), instance(3, Card::Farm), instance(1, Card::Tower)];
    sync_shown_cards(&mut shown, &server, 0);
    assert_eq!(
        shown,
        vec![
            (instance(1, Card::Tower), 7),
            (instance(3, Card::Farm), 9),
            (instance(4, Card::Meteor), 0),
        ]
    );
}

#[test]
fn sync_with_empty_hand_shows_nothing() {
    let mut shown: Vec<(CardInstance, u32)> = vec![(instance(5, Card::Dragon), 1)];
    sync_shown_cards(&mut shown, &vec![], 3);
    assert!(shown.is_empty());
}

#[test]
fn sync_updates_only_first_card_with_an_id() {
    let mut shown: Vec<(CardInstance, u32)> =
        vec![(instance(6, Card::Wall), 1), (instance(6, Card::Farm), 2)];
    let server = vec![instance(6, Card::Dragon)];
    sync_shown_cards(&mut shown, &server, 0);
    assert_eq!(shown, vec![(instance(6, Card::Dragon), 1), (instance(6, Card::Farm), 2)]);
}
