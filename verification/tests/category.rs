use rusty_cards::category::get_category;

#[test]
fn characters_aliases_resolve() {
    for alias in ["c", "characters", "chars", "char"] {
        assert_eq!(get_category(alias.to_string()), Ok("characters".to_string()));
    }
}

#[test]
fn posters_aliases_resolve() {
    for alias in ["p", "posters", "poster"] {
        assert_eq!(get_category(alias.to_string()), Ok("posters".to_string()));
    }
}

#[test]
fn unknown_category_is_rejected_with_message() {
    let r = get_category("zebra".to_string());
    assert_eq!(
        r,
        Err(
            "Did not recognize category: zebra. Valid categories include \"characters\" and \"posters\"."
                .to_string()
        )
    );
}

#[test]
fn resolution_is_case_sensitive() {
    assert!(get_category("Characters".to_string()).is_err());
}
