use vstd::prelude::*;
use rand::Rng;
use crate::card::GeneratedCard;
use crate::category::{get_category, is_known_category};
use crate::collection::{
    contents_of, increment_card, decrement_card, one_less, one_more, quantities_below_max,
    quantity_of, UserCollection,
};
use crate::cooldown::{check_and_refresh_cooldown, cooldown_eligible};
use crate::error::Error;

verus! {

/// Relies on rand's `thread_rng` and `Rng::gen_range` over `0..n`: the
/// draw lies below `n` and, per rand's documentation, is uniform over that
/// range; `gen_range` panics on an empty range, so `n` must be positive.
#[verifier::external_body]
fn pick_index(n: usize) -> (r: usize)
    requires
        0 < n,
    ensures
        r < n,
{
    rand::thread_rng().gen_range(0..n)
}

/// The roll stamp of a fetched document, absent when the document is.
pub open spec fn roll_stamp_of(fetched: Option<UserCollection>) -> Option<i64> {
    match fetched {
        None => None,
        Some(c) => c.last_rolled,
    }
}

/// The inventory stamp of a fetched document, absent when the document is.
pub open spec fn inventory_stamp_of(fetched: Option<UserCollection>) -> Option<i64> {
    match fetched {
        None => None,
        Some(c) => c.last_inventory,
    }
}

/// What a successful roll decides: the drawn card, the collection document
/// to persist, and whether that document must be created rather than
/// patched.
pub struct RollOutcome {
    pub card: GeneratedCard,
    pub collection: UserCollection,
    pub created: bool,
}

/// Rolls one card for a user: validates the requested category, checks and
/// refreshes the roll cooldown, draws one card from the category's catalog
/// uniformly at random, and records the draw into the user's collection.
///
/// `fetched` is the user's document as read from the store (`None` when no
/// document exists), `catalog` the non-empty list of currently published
/// cards of the requested category, and `now` the current UTC epoch
/// second. The caller persists `collection` afterwards; by design a
/// failure of that write does not unwind the roll — the user keeps the
/// card they saw even when the save was lost.
pub fn roll(
    fetched: Option<UserCollection>,
    category_input: &str,
    catalog: &Vec<GeneratedCard>,
    now: i64,
    window: i64,
) -> (r: Result<RollOutcome, Error>)
    requires
        0 < catalog@.len(),
        0 <= now,
        0 <= window,
        fetched matches Some(c) ==> c.wf() && quantities_below_max(c.contents()) && (
        c.last_rolled matches Some(t) ==> 0 <= t),
    ensures
        r is Ok <==> is_known_category(category_input@) && cooldown_eligible(
            roll_stamp_of(fetched),
            now as int,
            window as int,
        ),
        !is_known_category(category_input@) <==> (r matches Err(e) && e
            == Error::InvalidCategory),
        is_known_category(category_input@) && !cooldown_eligible(
            roll_stamp_of(fetched),
            now as int,
            window as int,
        ) <==> (r matches Err(e) && e == Error::CooldownActive),
        r matches Ok(o) ==> exists|i: int|
            0 <= i < catalog@.len() && o.card == catalog@[i],
        r matches Ok(o) ==> o.collection.wf() && o.collection.contents() == one_more(
            contents_of(fetched),
            o.card.id@,
        ) && o.collection.last_rolled == Some(now) && o.collection.last_inventory
            == inventory_stamp_of(fetched) && (o.created <==> fetched is None),
{
    if let Err(_) = get_category(category_input.to_owned()) {
        return Err(Error::InvalidCategory);
    }
    let last = match &fetched {
        None => None,
        Some(c) => c.last_rolled,
    };
    let (eligible, _stamp) = check_and_refresh_cooldown(last, now, window);
    if !eligible {
        return Err(Error::CooldownActive);
    }
    let idx = pick_index(catalog.len());
    let card = catalog[idx].clone();
    let (mut collection, created) = increment_card(fetched, card.id.as_str(), now);
    collection.last_rolled = Some(now);
    Ok(RollOutcome { card, collection, created })
}

/// Law: the rolled card is one of the catalog's cards, so when every card
/// of the drawn-from catalog belongs to category `c`, the rolled card
/// belongs to category `c` as well.
pub proof fn lemma_roll_respects_category(
    catalog: Seq<GeneratedCard>,
    card: GeneratedCard,
    c: Seq<char>,
)
    requires
        exists|i: int| 0 <= i < catalog.len() && card == #[trigger] catalog[i],
        forall|i: int| 0 <= i < catalog.len() ==> #[trigger] catalog[i].category@ == c,
    ensures
        card.category@ == c,
{
    let i = choose|i: int| 0 <= i < catalog.len() && card == #[trigger] catalog[i];
    assert(catalog[i].category@ == c);
}

/// What a successful trade decides: the two collection documents to
/// persist and how (delete the sender's document when its last entry went
/// away; create the receiver's when none existed).
pub struct TradeOutcome {
    pub sender: UserCollection,
    pub delete_sender: bool,
    pub receiver: UserCollection,
    pub create_receiver: bool,
}

/// Transfers one copy of a card from `sender` to `receiver`.
///
/// Fails with `Error::CardNotOwned`, deciding no state change at all, when
/// the sender owns no copy; the caller then writes nothing and both stored
/// collections stay as they were. On success the caller persists the
/// sender's document first and the receiver's second; the two writes touch
/// two documents and the store has no cross-document transaction, so a
/// receiver write that is lost after the sender write landed loses the
/// copy. That residual risk is documented behaviour, not hidden here.
pub fn trade(
    sender: UserCollection,
    receiver: Option<UserCollection>,
    card_id: &str,
    now: i64,
) -> (r: Result<TradeOutcome, Error>)
    requires
        sender.wf(),
        receiver matches Some(c) ==> c.wf() && quantities_below_max(c.contents()),
    ensures
        r is Ok <==> sender.contents().dom().contains(card_id@),
        r matches Err(e) ==> e == Error::CardNotOwned,
        r matches Ok(o) ==> o.sender.wf() && o.sender.contents() == one_less(
            sender.contents(),
            card_id@,
        ) && (o.delete_sender <==> o.sender.cards@.len() == 0) && o.sender.last_rolled
            == sender.last_rolled && o.sender.last_inventory == sender.last_inventory,
        r matches Ok(o) ==> o.receiver.wf() && o.receiver.contents() == one_more(
            contents_of(receiver),
            card_id@,
        ) && (o.create_receiver <==> receiver is None) && (receiver matches Some(c)
            ==> o.receiver.last_rolled == c.last_rolled && o.receiver.last_inventory
            == c.last_inventory),
{
    let (new_sender, delete_sender) = match decrement_card(sender, card_id) {
        Ok(p) => p,
        Err(e) => {
            return Err(e);
        },
    };
    let (new_receiver, create_receiver) = increment_card(receiver, card_id, now);
    Ok(
        TradeOutcome {
            sender: new_sender,
            delete_sender,
            receiver: new_receiver,
            create_receiver,
        },
    )
}

/// Law: trading away a card the sender owns exactly once removes the
/// sender's entry for it outright, and raises the receiver's owned count
/// of it by exactly one whatever the receiver held before.
pub proof fn lemma_trade_single_copy(ms: Map<Seq<char>, int>, mr: Map<Seq<char>, int>, k: Seq<char>)
    requires
        ms.dom().contains(k),
        ms[k] == 1,
    ensures
        one_less(ms, k) == ms.remove(k),
        one_more(mr, k).dom().contains(k),
        quantity_of(one_more(mr, k), k) == quantity_of(mr, k) + 1,
{
}

} // verus!
