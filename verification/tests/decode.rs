use rusty_cards::decode::{parse_card_document, parse_catalog_document, parse_user_document};
use rusty_cards::error::Error;

const USER_DOC: &str = r#"{
  "fields": {
    "cards": {"arrayValue": {"values": [
      {"mapValue": {"fields": {"quantity": {"stringValue": "2"}, "id": {"stringValue": "ray"}}}},
      {"mapValue": {"fields": {"quantity": {"stringValue": "1"}, "id": {"stringValue": "gem"}}}}
    ]}},
    "last_rolled": {"timestampValue": "2022-01-01T00:00:00Z"},
    "last_inventory": {"timestampValue": "2022-01-01T00:05:00Z"}
  }
}"#;

#[test]
fn a_user_document_reads_into_entries_and_stamps() {
    let col = parse_user_document(USER_DOC).unwrap();
    assert_eq!(col.cards.len(), 2);
    assert_eq!(col.cards[0].id, "ray");
    assert_eq!(col.cards[0].quantity, 2);
    assert_eq!(col.cards[1].id, "gem");
    assert_eq!(col.cards[1].quantity, 1);
    assert_eq!(col.last_rolled, Some(1640995200));
    assert_eq!(col.last_inventory, Some(1640995500));
}

#[test]
fn absent_stamps_read_as_never() {
    let body = r#"{"fields": {"cards": {"arrayValue": {"values": [
        {"mapValue": {"fields": {"quantity": {"stringValue": "1"}, "id": {"stringValue": "ray"}}}}
    ]}}}}"#;
    let col = parse_user_document(body).unwrap();
    assert_eq!(col.last_rolled, None);
    assert_eq!(col.last_inventory, None);
}

#[test]
fn a_zero_quantity_entry_is_a_malformed_document() {
    let body = r#"{"fields": {"cards": {"arrayValue": {"values": [
        {"mapValue": {"fields": {"quantity": {"stringValue": "0"}, "id": {"stringValue": "ray"}}}}
    ]}}}}"#;
    assert_eq!(parse_user_document(body).err(), Some(Error::StoreUnavailable));
}

#[test]
fn a_repeated_card_id_is_a_malformed_document() {
    let body = r#"{"fields": {"cards": {"arrayValue": {"values": [
        {"mapValue": {"fields": {"quantity": {"stringValue": "1"}, "id": {"stringValue": "ray"}}}},
        {"mapValue": {"fields": {"quantity": {"stringValue": "2"}, "id": {"stringValue": "ray"}}}}
    ]}}}}"#;
    assert_eq!(parse_user_document(body).err(), Some(Error::StoreUnavailable));
}

#[test]
fn an_unparseable_stamp_is_a_malformed_document() {
    let body = r#"{"fields": {
        "cards": {"arrayValue": {"values": []}},
        "last_rolled": {"timestampValue": "not a date"}
    }}"#;
    assert_eq!(parse_user_document(body).err(), Some(Error::StoreUnavailable));
}

#[test]
fn junk_text_is_a_store_failure() {
    assert_eq!(parse_user_document("<html>").err(), Some(Error::StoreUnavailable));
    assert_eq!(parse_user_document("{}").err(), Some(Error::StoreUnavailable));
}

#[test]
fn a_card_document_reads_into_a_card() {
    let body = r#"{"fields": {
        "name": {"stringValue": "Proto Ray"},
        "image": {"stringValue": "https://example.invalid/ray.png"},
        "category": {"stringValue": "Characters"},
        "set": {"stringValue": "base"},
        "theme": {"stringValue": "classic"},
        "id": {"stringValue": "ray"},
        "link": {"stringValue": "https://example.invalid/ray"}
    }}"#;
    let card = parse_card_document(body, 3).unwrap();
    assert_eq!(card.name, "Proto Ray");
    assert_eq!(card.category, "Characters");
    assert_eq!(card.set, "base");
    assert_eq!(card.theme, "classic");
    assert_eq!(card.id, "ray");
    assert_eq!(card.quantity, 3);
    assert_eq!(card.link, "https://example.invalid/ray");
}

#[test]
fn an_absent_link_reads_as_the_empty_sentinel() {
    let body = r#"{"fields": {
        "name": {"stringValue": "Proto Ray"},
        "image": {"stringValue": "https://example.invalid/ray.png"},
        "category": {"stringValue": "characters"},
        "set": {"stringValue": "base"},
        "theme": {"stringValue": "classic"},
        "id": {"stringValue": "ray"}
    }}"#;
    let card = parse_card_document(body, 1).unwrap();
    assert_eq!(card.link, "");
}

#[test]
fn a_missing_required_field_is_a_store_failure() {
    let body = r#"{"fields": {"name": {"stringValue": "Proto Ray"}}}"#;
    assert_eq!(parse_card_document(body, 1).err(), Some(Error::StoreUnavailable));
}

#[test]
fn a_malformed_entry_fails_the_whole_user_document() {
    let body = r#"{"fields": {"cards": {"arrayValue": {"values": [
        {"mapValue": {"fields": {"quantity": {"stringValue": "1"}, "id": {"stringValue": "ray"}}}},
        {"quantity": {"stringValue": "1"}, "id": {"stringValue": "gem"}}
    ]}}}}"#;
    assert_eq!(parse_user_document(body).err(), Some(Error::StoreUnavailable));
}

#[test]
fn a_card_document_needs_a_fields_object() {
    assert_eq!(parse_card_document("<html>", 1).err(), Some(Error::StoreUnavailable));
    assert_eq!(parse_card_document("{}", 1).err(), Some(Error::StoreUnavailable));
}

#[test]
fn a_catalog_entry_missing_a_field_fails_the_listing() {
    let body = r#"{"documents": [
        {"fields": {
            "name": {"stringValue": "Proto Ray"},
            "image": {"stringValue": "https://example.invalid/ray.png"},
            "category": {"stringValue": "characters"},
            "set": {"stringValue": "base"},
            "theme": {"stringValue": "classic"},
            "id": {"stringValue": "ray"}
        }},
        {"fields": {
            "name": {"stringValue": "Gem"}
        }}
    ]}"#;
    assert_eq!(parse_catalog_document(body).err(), Some(Error::StoreUnavailable));
    assert_eq!(parse_catalog_document("{}").err(), Some(Error::StoreUnavailable));
}

#[test]
fn a_catalog_document_lists_every_card_once() {
    let body = r#"{"documents": [
        {"fields": {
            "name": {"stringValue": "Proto Ray"},
            "image": {"stringValue": "https://example.invalid/ray.png"},
            "category": {"stringValue": "characters"},
            "set": {"stringValue": "base"},
            "theme": {"stringValue": "classic"},
            "id": {"stringValue": "ray"}
        }},
        {"fields": {
            "name": {"stringValue": "Gem"},
            "image": {"stringValue": "https://example.invalid/gem.png"},
            "category": {"stringValue": "characters"},
            "set": {"stringValue": "base"},
            "theme": {"stringValue": "classic"},
            "id": {"stringValue": "gem"}
        }}
    ]}"#;
    let cards = parse_catalog_document(body).unwrap();
    assert_eq!(cards.len(), 2);
    assert_eq!(cards[0].id, "ray");
    assert_eq!(cards[1].id, "gem");
    assert!(cards.iter().all(|c| c.quantity == 1));
}
