use rusty_cards::error::Error;

#[test]
fn each_error_has_its_own_message() {
    assert_eq!(Error::CardNotOwned.message(), "You do not have this card.");
    assert_eq!(Error::SessionTimeout.message(), "You took too long to respond.");
    assert_eq!(Error::InvalidCategory.message(), "Did not recognize that category.");
    assert_eq!(Error::CooldownActive.message(), "You must wait before doing that again.");
    assert_eq!(Error::CardNotFound.message(), "No such card exists.");
    assert_eq!(Error::NotFound.message(), "No cards found.");
    assert_eq!(Error::StoreUnavailable.message(), "Could not reach the card store.");
    assert_eq!(Error::EmptySequence.message(), "There is nothing to show.");
}
