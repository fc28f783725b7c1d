use rusty_cards::collection::{decrement_card, increment_card, CollectionCard, UserCollection};
use rusty_cards::error::Error;

fn entry(id: &str, quantity: u16) -> CollectionCard {
    CollectionCard { id: id.to_string(), quantity }
}

fn collection(cards: Vec<CollectionCard>) -> UserCollection {
    UserCollection { cards, last_rolled: None, last_inventory: None }
}

fn quantity(col: &UserCollection, id: &str) -> Option<u16> {
    col.cards.iter().find(|c| c.id == id).map(|c| c.quantity)
}

#[test]
fn increment_creates_a_document_for_a_new_user() {
    let (col, created) = increment_card(None, "ray", 900);
    assert!(created);
    assert_eq!(col.cards.len(), 1);
    assert_eq!(quantity(&col, "ray"), Some(1));
    assert_eq!(col.last_rolled, Some(900));
    assert_eq!(col.last_inventory, None);
}

#[test]
fn increment_bumps_an_existing_entry() {
    let before = collection(vec![entry("ray", 2), entry("gem", 1)]);
    let (after, created) = increment_card(Some(before), "ray", 50);
    assert!(!created);
    assert_eq!(quantity(&after, "ray"), Some(3));
    assert_eq!(quantity(&after, "gem"), Some(1));
    assert_eq!(after.cards.len(), 2);
}

#[test]
fn increment_appends_an_unowned_card() {
    let before = collection(vec![entry("gem", 1)]);
    let (after, created) = increment_card(Some(before), "ray", 50);
    assert!(!created);
    assert_eq!(quantity(&after, "ray"), Some(1));
    assert_eq!(quantity(&after, "gem"), Some(1));
    assert_eq!(after.cards.len(), 2);
}

#[test]
fn increment_keeps_existing_stamps() {
    let mut before = collection(vec![entry("gem", 1)]);
    before.last_rolled = Some(7);
    before.last_inventory = Some(9);
    let (after, _) = increment_card(Some(before), "gem", 50);
    assert_eq!(after.last_rolled, Some(7));
    assert_eq!(after.last_inventory, Some(9));
}

#[test]
fn decrement_lowers_a_multiple_entry() {
    let before = collection(vec![entry("ray", 2), entry("gem", 1)]);
    let (after, delete) = decrement_card(before, "ray").unwrap();
    assert!(!delete);
    assert_eq!(quantity(&after, "ray"), Some(1));
    assert_eq!(quantity(&after, "gem"), Some(1));
}

#[test]
fn decrement_drops_a_single_entry() {
    let before = collection(vec![entry("ray", 1), entry("gem", 1)]);
    let (after, delete) = decrement_card(before, "ray").unwrap();
    assert!(!delete);
    assert_eq!(quantity(&after, "ray"), None);
    assert_eq!(quantity(&after, "gem"), Some(1));
    assert_eq!(after.cards.len(), 1);
}

#[test]
fn decrement_of_the_last_entry_deletes_the_document() {
    let before = collection(vec![entry("ray", 1)]);
    let (after, delete) = decrement_card(before, "ray").unwrap();
    assert!(delete);
    assert!(after.cards.is_empty());
}

#[test]
fn decrement_of_an_unowned_card_fails() {
    let before = collection(vec![entry("gem", 1)]);
    let r = decrement_card(before, "ray");
    assert_eq!(r.err(), Some(Error::CardNotOwned));
}

#[test]
fn increment_then_decrement_restores_the_collection() {
    let before = collection(vec![entry("gem", 3)]);
    let (bumped, _) = increment_card(Some(before), "ray", 50);
    let (restored, delete) = decrement_card(bumped, "ray").unwrap();
    assert!(!delete);
    assert_eq!(restored.cards.len(), 1);
    assert_eq!(quantity(&restored, "gem"), Some(3));
    assert_eq!(quantity(&restored, "ray"), None);
}

#[test]
fn increment_then_decrement_of_an_only_card_leaves_no_document() {
    let (created, _) = increment_card(None, "ray", 50);
    let (after, delete) = decrement_card(created, "ray").unwrap();
    assert!(delete);
    assert!(after.cards.is_empty());
}
