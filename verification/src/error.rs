use vstd::prelude::*;

verus! {

/// The error taxonomy of the library.
///
/// `NotFound` (no document for a user, read as an empty collection) and
/// `SessionTimeout` (normal end of a browsing session) are non-fatal
/// conditions that callers are expected to absorb; the others are surfaced.
#[derive(Clone, Copy, Debug, PartialEq, Eq, Structural)]
pub enum Error {
    /// The requested category matches no known category or alias.
    InvalidCategory,
    /// The per-user cooldown window has not elapsed yet.
    CooldownActive,
    /// The sender's collection has no entry for the requested card.
    CardNotOwned,
    /// The catalog has no card with the requested id in that category.
    CardNotFound,
    /// No document exists for the user; read as an empty collection.
    NotFound,
    /// A network or parse failure while talking to the document store.
    StoreUnavailable,
    /// A browsing session cannot be opened over zero items.
    EmptySequence,
    /// The browsing session expired with no input; a normal terminal state.
    SessionTimeout,
}

impl Error {
    /// The user-facing message of each error, as a sequence of characters.
    pub open spec fn spec_message(self) -> Seq<char> {
        match self {
            Error::InvalidCategory => "Did not recognize that category."@,
            Error::CooldownActive => "You must wait before doing that again."@,
            Error::CardNotOwned => "You do not have this card."@,
            Error::CardNotFound => "No such card exists."@,
            Error::NotFound => "No cards found."@,
            Error::StoreUnavailable => "Could not reach the card store."@,
            Error::EmptySequence => "There is nothing to show."@,
            Error::SessionTimeout => "You took too long to respond."@,
        }
    }

    /// The user-facing message of this error.
    pub fn message(&self) -> (r: String)
        ensures
            r@ == self.spec_message(),
    {
        match self {
            Error::InvalidCategory => "Did not recognize that category.".to_owned(),
            Error::CooldownActive => "You must wait before doing that again.".to_owned(),
            Error::CardNotOwned => "You do not have this card.".to_owned(),
            Error::CardNotFound => "No such card exists.".to_owned(),
            Error::NotFound => "No cards found.".to_owned(),
            Error::StoreUnavailable => "Could not reach the card store.".to_owned(),
            Error::EmptySequence => "There is nothing to show.".to_owned(),
            Error::SessionTimeout => "You took too long to respond.".to_owned(),
        }
    }
}

} // verus!
