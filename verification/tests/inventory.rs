use rusty_cards::card::GeneratedCard;
use rusty_cards::inventory::filter_by_category;

fn card(id: &str, category: &str) -> GeneratedCard {
    GeneratedCard {
        name: format!("card {id}"),
        image: format!("https://example.invalid/{id}.png"),
        category: category.to_string(),
        set: "base".to_string(),
        theme: "classic".to_string(),
        id: id.to_string(),
        quantity: 1,
        link: String::new(),
    }
}

#[test]
fn filtering_keeps_only_the_requested_category() {
    let cards = vec![card("a", "characters"), card("b", "posters"), card("c", "characters")];
    let kept = filter_by_category(cards, "characters");
    assert_eq!(kept.len(), 2);
    assert_eq!(kept[0].id, "a");
    assert_eq!(kept[1].id, "c");
}

#[test]
fn filtering_folds_the_stored_category_case() {
    // The stored category is compared case-folded, so "Characters" in the
    // catalog still matches the canonical lower-case request.
    let cards = vec![card("a", "Characters"), card("b", "POSTERS")];
    let kept = filter_by_category(cards, "characters");
    assert_eq!(kept.len(), 1);
    assert_eq!(kept[0].id, "a");
    let kept = filter_by_category(vec![card("b", "POSTERS")], "posters");
    assert_eq!(kept.len(), 1);
}

#[test]
fn filtering_an_empty_inventory_yields_nothing() {
    let kept = filter_by_category(Vec::new(), "characters");
    assert!(kept.is_empty());
}
