use vstd::prelude::*;
use crate::card::GeneratedCard;
use crate::collection::{positive_quantities, unique_ids, CollectionCard, UserCollection};
use crate::error::Error;
use crate::text::{all_decimal_digits, decimal_value, parse_u16, str_eq};

verus! {

// The store serves documents as JSON text. Reading a named field out of
// such a text is a function of the text alone, so each extraction below is
// named by an uninterpreted spec function and tied to serde_json by one
// trusted wrapper; the decoders are then verified to succeed exactly when
// the extractions their document needs succeed, and to return those
// extractions unchanged.
/// The text under `fields.<key>.stringValue` of a single-card document,
/// absent when the text is not JSON, the path is missing, or the leaf is
/// not a string.
pub uninterp spec fn doc_string_field(doc: Seq<char>, key: Seq<char>) -> Option<Seq<char>>;

/// How many documents a catalog listing's `documents` array holds, absent
/// when the text is not JSON or `documents` is not an array.
pub uninterp spec fn catalog_len_of(doc: Seq<char>) -> Option<int>;

/// The text under `documents[index].fields.<key>.stringValue` of a catalog
/// listing, absent when anything along that path is missing or mistyped.
pub uninterp spec fn catalog_string_field(doc: Seq<char>, index: int, key: Seq<char>) -> Option<
    Seq<char>,
>;

/// How many entries a user document's `fields.cards.arrayValue.values`
/// array holds, absent when anything along that path is missing or
/// mistyped.
pub uninterp spec fn user_cards_len_of(doc: Seq<char>) -> Option<int>;

/// The text under `values[index].mapValue.fields.<key>.stringValue` of a
/// user document's cards array, absent when anything along that path is
/// missing or mistyped.
pub uninterp spec fn user_entry_field(doc: Seq<char>, index: int, key: Seq<char>) -> Option<
    Seq<char>,
>;

/// A user document's `fields.<key>` stamp holder: absent when the field is
/// (or the text is not JSON), `Some(None)` when the field is there but
/// carries no string `timestampValue`, and the timestamp text otherwise.
pub uninterp spec fn user_stamp_field(doc: Seq<char>, key: Seq<char>) -> Option<Option<Seq<char>>>;

/// The UTC epoch second count that a timestamp text of the store's format
/// denotes, absent when the text does not parse. What it is for a given
/// text is chrono's to say; it depends on the text alone.
pub uninterp spec fn timestamp_seconds_of(s: Seq<char>) -> Option<i64>;

/// The view of an optional owned string.
pub open spec fn text_opt(r: Option<String>) -> Option<Seq<char>> {
    match r {
        None => None,
        Some(s) => Some(s@),
    }
}

/// The view of an optional count.
pub open spec fn count_opt(r: Option<usize>) -> Option<int> {
    match r {
        None => None,
        Some(n) => Some(n as int),
    }
}

/// The view of an optional, optional owned string.
pub open spec fn stamp_opt(r: Option<Option<String>>) -> Option<Option<Seq<char>>> {
    match r {
        None => None,
        Some(None) => Some(None),
        Some(Some(s)) => Some(Some(s@)),
    }
}

/// Relies on serde_json's `from_str` for `Value`, `Value::get` and
/// `Value::as_str`: looks `fields.<key>.stringValue` up in a single-card
/// document text.
#[verifier::external_body]
fn card_field_text(text: &str, key: &str) -> (r: Option<String>)
    ensures
        text_opt(r) == doc_string_field(text@, key@),
{
    let v: serde_json::Value = serde_json::from_str(text).ok()?;
    Some(v.get("fields")?.get(key)?.get("stringValue")?.as_str()?.to_owned())
}

/// Relies on serde_json's `from_str`, `Value::get` and `Value::as_array`:
/// counts the `documents` array of a catalog listing text.
#[verifier::external_body]
fn catalog_count(text: &str) -> (r: Option<usize>)
    ensures
        count_opt(r) == catalog_len_of(text@),
{
    let v: serde_json::Value = serde_json::from_str(text).ok()?;
    Some(v.get("documents")?.as_array()?.len())
}

/// Relies on serde_json's `from_str`, `Value::get` (with a key and with an
/// index) and `Value::as_str`: looks one card field up in a catalog
/// listing text.
#[verifier::external_body]
fn catalog_field_text(text: &str, index: usize, key: &str) -> (r: Option<String>)
    ensures
        text_opt(r) == catalog_string_field(text@, index as int, key@),
{
    let v: serde_json::Value = serde_json::from_str(text).ok()?;
    let d = v.get("documents")?.get(index)?;
    Some(d.get("fields")?.get(key)?.get("stringValue")?.as_str()?.to_owned())
}

/// Relies on serde_json's `from_str`, `Value::get` and `Value::as_array`:
/// counts the `fields.cards.arrayValue.values` array of a user document
/// text.
#[verifier::external_body]
fn user_cards_count(text: &str) -> (r: Option<usize>)
    ensures
        count_opt(r) == user_cards_len_of(text@),
{
    let v: serde_json::Value = serde_json::from_str(text).ok()?;
    Some(v.get("fields")?.get("cards")?.get("arrayValue")?.get("values")?.as_array()?.len())
}

/// Relies on serde_json's `from_str`, `Value::get` (with a key and with an
/// index) and `Value::as_str`: looks one entry field up in a user
/// document's cards array.
#[verifier::external_body]
fn user_entry_text(text: &str, index: usize, key: &str) -> (r: Option<String>)
    ensures
        text_opt(r) == user_entry_field(text@, index as int, key@),
{
    let v: serde_json::Value = serde_json::from_str(text).ok()?;
    let e = v.get("fields")?.get("cards")?.get("arrayValue")?.get("values")?.get(index)?;
    Some(e.get("mapValue")?.get("fields")?.get(key)?.get("stringValue")?.as_str()?.to_owned())
}

/// Relies on serde_json's `from_str`, `Value::get` and `Value::as_str`:
/// reads the `fields.<key>.timestampValue` stamp holder of a user document
/// text, telling an absent field apart from a mistyped one.
#[verifier::external_body]
fn stamp_text(text: &str, key: &str) -> (r: Option<Option<String>>)
    ensures
        stamp_opt(r) == user_stamp_field(text@, key@),
{
    let v: serde_json::Value = serde_json::from_str(text).ok()?;
    let holder = v.get("fields")?.get(key)?;
    match holder.get("timestampValue") {
        Some(t) => match t.as_str() {
            Some(s) => Some(Some(s.to_owned())),
            None => Some(None),
        },
        None => Some(None),
    }
}

/// Relies on chrono's `NaiveDateTime::parse_from_str` with the store's
/// timestamp format (`%Y-%m-%dT%H:%M:%SZ`, ISO-8601 UTC at second
/// precision), and on `and_utc`/`timestamp` turning the parsed instant
/// into UTC epoch seconds: the result is a function of the text alone.
#[verifier::external_body]
fn parse_timestamp(s: &str) -> (r: Option<i64>)
    ensures
        r == timestamp_seconds_of(s@),
{
    match chrono::NaiveDateTime::parse_from_str(s, "%Y-%m-%dT%H:%M:%SZ") {
        Ok(d) => Some(d.and_utc().timestamp()),
        Err(_) => None,
    }
}

/// The empty "no link" sentinel for an absent link field, the field's text
/// otherwise.
pub open spec fn spec_link_of(l: Option<Seq<char>>) -> Seq<char> {
    match l {
        Some(s) => s,
        None => Seq::empty(),
    }
}

/// Whether a single-card document text carries every required string
/// field (`link` stays optional).
pub open spec fn card_document_decodes(doc: Seq<char>) -> bool {
    &&& doc_string_field(doc, "name"@) is Some
    &&& doc_string_field(doc, "image"@) is Some
    &&& doc_string_field(doc, "category"@) is Some
    &&& doc_string_field(doc, "set"@) is Some
    &&& doc_string_field(doc, "theme"@) is Some
    &&& doc_string_field(doc, "id"@) is Some
}

/// Whether `c` carries exactly the fields a single-card document text
/// holds, an absent link reading as the empty sentinel.
pub open spec fn card_matches_document(c: GeneratedCard, doc: Seq<char>) -> bool {
    &&& Some(c.name@) == doc_string_field(doc, "name"@)
    &&& Some(c.image@) == doc_string_field(doc, "image"@)
    &&& Some(c.category@) == doc_string_field(doc, "category"@)
    &&& Some(c.set@) == doc_string_field(doc, "set"@)
    &&& Some(c.theme@) == doc_string_field(doc, "theme"@)
    &&& Some(c.id@) == doc_string_field(doc, "id"@)
    &&& c.link@ == spec_link_of(doc_string_field(doc, "link"@))
}

/// One card resolved from its own catalog document (the body of a
/// single-card read), owned `quantity` times. Succeeds exactly when the
/// document carries every required string field, and returns those fields
/// unchanged; an absent link reads as the empty "no link" sentinel.
pub fn parse_card_document(text: &str, quantity: u16) -> (r: Result<GeneratedCard, Error>)
    ensures
        r is Ok <==> card_document_decodes(text@),
        r matches Ok(c) ==> card_matches_document(c, text@) && c.quantity == quantity,
        r matches Err(e) ==> e == Error::StoreUnavailable,
{
    let name = match card_field_text(text, "name") {
        Some(s) => s,
        None => {
            return Err(Error::StoreUnavailable);
        },
    };
    let image = match card_field_text(text, "image") {
        Some(s) => s,
        None => {
            return Err(Error::StoreUnavailable);
        },
    };
    let category = match card_field_text(text, "category") {
        Some(s) => s,
        None => {
            return Err(Error::StoreUnavailable);
        },
    };
    let set = match card_field_text(text, "set") {
        Some(s) => s,
        None => {
            return Err(Error::StoreUnavailable);
        },
    };
    let theme = match card_field_text(text, "theme") {
        Some(s) => s,
        None => {
            return Err(Error::StoreUnavailable);
        },
    };
    let id = match card_field_text(text, "id") {
        Some(s) => s,
        None => {
            return Err(Error::StoreUnavailable);
        },
    };
    let link = match card_field_text(text, "link") {
        Some(s) => s,
        None => String::new(),
    };
    Ok(GeneratedCard { name, image, category, set, theme, id, quantity, link })
}

/// Whether entry `i` of a catalog listing text carries every required
/// string field.
pub open spec fn catalog_entry_decodes(doc: Seq<char>, i: int) -> bool {
    &&& catalog_string_field(doc, i, "name"@) is Some
    &&& catalog_string_field(doc, i, "image"@) is Some
    &&& catalog_string_field(doc, i, "category"@) is Some
    &&& catalog_string_field(doc, i, "set"@) is Some
    &&& catalog_string_field(doc, i, "theme"@) is Some
    &&& catalog_string_field(doc, i, "id"@) is Some
}

/// Whether a catalog listing text decodes whole: it holds a documents
/// array and every listed document carries the required fields.
pub open spec fn catalog_decodes(doc: Seq<char>) -> bool {
    match catalog_len_of(doc) {
        Some(n) => forall|i: int| 0 <= i < n ==> catalog_entry_decodes(doc, i),
        None => false,
    }
}

/// Whether `c` carries exactly the fields of entry `i` of a catalog
/// listing text, owned once, an absent link reading as the empty sentinel.
pub open spec fn card_matches_catalog_entry(c: GeneratedCard, doc: Seq<char>, i: int) -> bool {
    &&& Some(c.name@) == catalog_string_field(doc, i, "name"@)
    &&& Some(c.image@) == catalog_string_field(doc, i, "image"@)
    &&& Some(c.category@) == catalog_string_field(doc, i, "category"@)
    &&& Some(c.set@) == catalog_string_field(doc, i, "set"@)
    &&& Some(c.theme@) == catalog_string_field(doc, i, "theme"@)
    &&& Some(c.id@) == catalog_string_field(doc, i, "id"@)
    &&& c.link@ == spec_link_of(catalog_string_field(doc, i, "link"@))
    &&& c.quantity == 1
}

/// The whole published catalog of one category, read from the body of a
/// category listing. Succeeds exactly when the text decodes whole, and
/// returns every listed card in listing order with its fields unchanged;
/// each is owned once by convention, a catalog document carrying no
/// ownership.
pub fn parse_catalog_document(text: &str) -> (r: Result<Vec<GeneratedCard>, Error>)
    ensures
        r is Ok <==> catalog_decodes(text@),
        r matches Ok(cards) ==> Some(cards@.len() as int) == catalog_len_of(text@) && (forall|
            i: int,
        |
            0 <= i < cards@.len() ==> #[trigger] card_matches_catalog_entry(cards@[i], text@, i)),
        r matches Err(e) ==> e == Error::StoreUnavailable,
{
    let n = match catalog_count(text) {
        Some(n) => n,
        None => {
            return Err(Error::StoreUnavailable);
        },
    };
    let mut cards: Vec<GeneratedCard> = Vec::new();
    let mut i: usize = 0;
    while i < n
        invariant
            count_opt(Some(n)) == catalog_len_of(text@),
            i <= n,
            cards@.len() == i as int,
            forall|j: int| 0 <= j < i ==> catalog_entry_decodes(text@, j),
            forall|j: int|
                0 <= j < i ==> #[trigger] card_matches_catalog_entry(cards@[j], text@, j),
        decreases n - i,
    {
        let name = match catalog_field_text(text, i, "name") {
            Some(s) => s,
            None => {
                proof {
                    assert(!catalog_entry_decodes(text@, i as int));
                }
                return Err(Error::StoreUnavailable);
            },
        };
        let image = match catalog_field_text(text, i, "image") {
            Some(s) => s,
            None => {
                proof {
                    assert(!catalog_entry_decodes(text@, i as int));
                }
                return Err(Error::StoreUnavailable);
            },
        };
        let category = match catalog_field_text(text, i, "category") {
            Some(s) => s,
            None => {
                proof {
                    assert(!catalog_entry_decodes(text@, i as int));
                }
                return Err(Error::StoreUnavailable);
            },
        };
        let set = match catalog_field_text(text, i, "set") {
            Some(s) => s,
            None => {
                proof {
                    assert(!catalog_entry_decodes(text@, i as int));
                }
                return Err(Error::StoreUnavailable);
            },
        };
        let theme = match catalog_field_text(text, i, "theme") {
            Some(s) => s,
            None => {
                proof {
                    assert(!catalog_entry_decodes(text@, i as int));
                }
                return Err(Error::StoreUnavailable);
            },
        };
        let id = match catalog_field_text(text, i, "id") {
            Some(s) => s,
            None => {
                proof {
                    assert(!catalog_entry_decodes(text@, i as int));
                }
                return Err(Error::StoreUnavailable);
            },
        };
        let link = match catalog_field_text(text, i, "link") {
            Some(s) => s,
            None => String::new(),
        };
        cards.push(GeneratedCard { name, image, category, set, theme, id, quantity: 1, link });
        i += 1;
    }
    Ok(cards)
}

/// Whether some already-read entry carries this card id.
fn contains_id(cards: &Vec<CollectionCard>, id: &str) -> (r: bool)
    ensures
        r == exists|j: int| 0 <= j < cards@.len() && (#[trigger] cards@[j].id@) == id@,
{
    let mut j: usize = 0;
    while j < cards.len()
        invariant
            j <= cards@.len(),
            forall|l: int| 0 <= l < j ==> (#[trigger] cards@[l].id@) != id@,
        decreases cards@.len() - j,
    {
        if str_eq(cards[j].id.as_str(), id) {
            return true;
        }
        j += 1;
    }
    false
}

/// Whether entry `i` of a user document text decodes: its id extracts and
/// its quantity is a digit string denoting one through `u16::MAX` copies.
pub open spec fn user_entry_decodes(doc: Seq<char>, i: int) -> bool {
    &&& user_entry_field(doc, i, "id"@) is Some
    &&& (user_entry_field(doc, i, "quantity"@) matches Some(q) && q.len() > 0
        && all_decimal_digits(q) && 1 <= decimal_value(q) && decimal_value(q) <= u16::MAX)
}

/// Whether no two entries of the document's first `n` carry the same id.
pub open spec fn user_entry_ids_distinct(doc: Seq<char>, n: int) -> bool {
    forall|i: int, j: int|
        0 <= i < j < n ==> user_entry_field(doc, i, "id"@) != user_entry_field(doc, j, "id"@)
}

/// Whether a stamp field of a user document decodes: absent fields are
/// fine ("never"), present ones must carry a timestamp text that denotes
/// an instant at or after the epoch.
pub open spec fn stamp_field_decodes(doc: Seq<char>, key: Seq<char>) -> bool {
    match user_stamp_field(doc, key) {
        None => true,
        Some(None) => false,
        Some(Some(s)) => match timestamp_seconds_of(s) {
            Some(t) => 0 <= t,
            None => false,
        },
    }
}

/// The instant a stamp field denotes, absent when the field is.
pub open spec fn spec_stamp_value(doc: Seq<char>, key: Seq<char>) -> Option<i64> {
    match user_stamp_field(doc, key) {
        Some(Some(s)) => timestamp_seconds_of(s),
        _ => None,
    }
}

/// Whether a user document text decodes whole: it holds a cards array,
/// every entry decodes, no card id repeats, and both stamps decode.
pub open spec fn user_document_decodes(doc: Seq<char>) -> bool {
    match user_cards_len_of(doc) {
        Some(n) => (forall|i: int| 0 <= i < n ==> user_entry_decodes(doc, i))
            && user_entry_ids_distinct(doc, n) && stamp_field_decodes(doc, "last_rolled"@)
            && stamp_field_decodes(doc, "last_inventory"@),
        None => false,
    }
}

/// Whether `c` carries exactly entry `i` of a user document text.
pub open spec fn entry_matches_document(c: CollectionCard, doc: Seq<char>, i: int) -> bool {
    &&& Some(c.id@) == user_entry_field(doc, i, "id"@)
    &&& (user_entry_field(doc, i, "quantity"@) matches Some(q) && c.quantity as int
        == decimal_value(q))
}

/// One optional stamp of a user document: `None` when the field is absent
/// (the action never happened), the epoch seconds otherwise. A present
/// field that does not parse, or denotes an instant before the epoch, is a
/// malformed document.
fn read_stamp(text: &str, key: &str) -> (r: Result<Option<i64>, Error>)
    ensures
        r is Ok <==> stamp_field_decodes(text@, key@),
        r matches Ok(o) ==> o == spec_stamp_value(text@, key@) && (o matches Some(t) ==> 0 <= t),
        r matches Err(e) ==> e == Error::StoreUnavailable,
{
    match stamp_text(text, key) {
        None => Ok(None),
        Some(None) => Err(Error::StoreUnavailable),
        Some(Some(s)) => match parse_timestamp(s.as_str()) {
            Some(t) => {
                if t >= 0 {
                    Ok(Some(t))
                } else {
                    Err(Error::StoreUnavailable)
                }
            },
            None => Err(Error::StoreUnavailable),
        },
    }
}

/// A user's whole document read from the body of a user read: the owned
/// entries, in document order, plus the two cooldown stamps.
///
/// Succeeds exactly when the document decodes whole — every entry carries
/// an id and a digit-string quantity of at least one, no card id repeats,
/// and the stamps are absent or well-formed, which is the shape every
/// document written by this library obeys; anything else reads as a store
/// failure. On success the entries equal the document's, index for index.
pub fn parse_user_document(text: &str) -> (r: Result<UserCollection, Error>)
    ensures
        r is Ok <==> user_document_decodes(text@),
        r matches Ok(c) ==> c.wf() && Some(c.cards@.len() as int) == user_cards_len_of(text@) && (
        forall|i: int|
            0 <= i < c.cards@.len() ==> #[trigger] entry_matches_document(c.cards@[i], text@, i)),
        r matches Ok(c) ==> c.last_rolled == spec_stamp_value(text@, "last_rolled"@)
            && c.last_inventory == spec_stamp_value(text@, "last_inventory"@) && (c.last_rolled
            matches Some(t) ==> 0 <= t) && (c.last_inventory matches Some(t) ==> 0 <= t),
        r matches Err(e) ==> e == Error::StoreUnavailable,
{
    let n = match user_cards_count(text) {
        Some(n) => n,
        None => {
            return Err(Error::StoreUnavailable);
        },
    };
    let mut cards: Vec<CollectionCard> = Vec::new();
    let mut i: usize = 0;
    while i < n
        invariant
            count_opt(Some(n)) == user_cards_len_of(text@),
            i <= n,
            cards@.len() == i as int,
            forall|j: int| 0 <= j < i ==> user_entry_decodes(text@, j),
            forall|j: int| 0 <= j < i ==> #[trigger] entry_matches_document(cards@[j], text@, j),
            unique_ids(cards@),
            positive_quantities(cards@),
        decreases n - i,
    {
        let id = match user_entry_text(text, i, "id") {
            Some(s) => s,
            None => {
                proof {
                    assert(!user_entry_decodes(text@, i as int));
                }
                return Err(Error::StoreUnavailable);
            },
        };
        let quantity_text = match user_entry_text(text, i, "quantity") {
            Some(s) => s,
            None => {
                proof {
                    assert(!user_entry_decodes(text@, i as int));
                }
                return Err(Error::StoreUnavailable);
            },
        };
        let quantity = match parse_u16(quantity_text.as_str()) {
            Some(q) => q,
            None => {
                proof {
                    assert(!user_entry_decodes(text@, i as int));
                }
                return Err(Error::StoreUnavailable);
            },
        };
        if quantity == 0 {
            proof {
                assert(!user_entry_decodes(text@, i as int));
            }
            return Err(Error::StoreUnavailable);
        }
        if contains_id(&cards, id.as_str()) {
            proof {
                let w = choose|j: int|
                    0 <= j < cards@.len() && (#[trigger] cards@[j].id@) == id@;
                assert(entry_matches_document(cards@[w], text@, w));
                assert(user_entry_field(text@, w, "id"@) == user_entry_field(
                    text@,
                    i as int,
                    "id"@,
                ));
                assert(!user_entry_ids_distinct(text@, n as int));
            }
            return Err(Error::StoreUnavailable);
        }
        cards.push(CollectionCard { id, quantity });
        i += 1;
    }
    let last_rolled = match read_stamp(text, "last_rolled") {
        Ok(t) => t,
        Err(e) => {
            return Err(e);
        },
    };
    let last_inventory = match read_stamp(text, "last_inventory") {
        Ok(t) => t,
        Err(e) => {
            return Err(e);
        },
    };
    proof {
        assert forall|a: int, b: int| 0 <= a < b < n as int implies user_entry_field(
            text@,
            a,
            "id"@,
        ) != user_entry_field(text@, b, "id"@) by {
            assert(entry_matches_document(cards@[a], text@, a));
            assert(entry_matches_document(cards@[b], text@, b));
            assert(cards@[a].id@ != cards@[b].id@);
        }
    }
    Ok(UserCollection { cards, last_rolled, last_inventory })
}

} // verus!
