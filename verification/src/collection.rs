use vstd::prelude::*;
use crate::text::str_eq;
use crate::error::Error;

verus! {

/// One line of a user's collection document: a card id and how many copies
/// the user owns. A stored entry always has `quantity >= 1`; an entry that
/// reaches zero is dropped from the document instead of being written.
#[derive(Debug)]
pub struct CollectionCard {
    pub id: String,
    pub quantity: u16,
}

impl Clone for CollectionCard {
    fn clone(&self) -> (res: Self)
        ensures
            res == *self,
    {
        CollectionCard { id: self.id.clone(), quantity: self.quantity }
    }
}

/// No two entries name the same card.
pub open spec fn unique_ids(s: Seq<CollectionCard>) -> bool {
    forall|i: int, j: int| 0 <= i < j < s.len() ==> s[i].id@ != s[j].id@
}

/// Every entry holds at least one copy.
pub open spec fn positive_quantities(s: Seq<CollectionCard>) -> bool {
    forall|i: int| 0 <= i < s.len() ==> #[trigger] s[i].quantity >= 1
}

/// The mathematical reading of an entry sequence: a finite map from card id
/// to owned quantity.
pub open spec fn entry_map(s: Seq<CollectionCard>) -> Map<Seq<char>, int>
    decreases s.len(),
{
    if s.len() == 0 {
        Map::empty()
    } else {
        entry_map(s.drop_last()).insert(s.last().id@, s.last().quantity as int)
    }
}

/// The map after one copy of card `k` is added.
pub open spec fn one_more(m: Map<Seq<char>, int>, k: Seq<char>) -> Map<Seq<char>, int> {
    m.insert(k, if m.dom().contains(k) { m[k] + 1 } else { 1 })
}

/// The map after one copy of card `k` is taken away; the entry disappears
/// when its last copy goes. Taking from an absent entry changes nothing.
pub open spec fn one_less(m: Map<Seq<char>, int>, k: Seq<char>) -> Map<Seq<char>, int> {
    if !m.dom().contains(k) {
        m
    } else if m[k] <= 1 {
        m.remove(k)
    } else {
        m.insert(k, m[k] - 1)
    }
}

/// A user's whole document: the owned entries plus the two cooldown
/// timestamps, each a UTC epoch second count, `None` meaning "never".
#[derive(Debug)]
pub struct UserCollection {
    pub cards: Vec<CollectionCard>,
    pub last_rolled: Option<i64>,
    pub last_inventory: Option<i64>,
}

impl Clone for UserCollection {
    fn clone(&self) -> (res: Self)
        ensures
            res.cards@ == self.cards@,
            res.last_rolled == self.last_rolled,
            res.last_inventory == self.last_inventory,
    {
        let mut cards: Vec<CollectionCard> = Vec::new();
        let mut i: usize = 0;
        while i < self.cards.len()
            invariant
                i <= self.cards.len(),
                cards@ =~= self.cards@.take(i as int),
            decreases self.cards.len() - i,
        {
            cards.push(self.cards[i].clone());
            proof {
                assert(cards@ =~= self.cards@.take(i as int + 1));
            }
            i += 1;
        }
        proof {
            assert(self.cards@.take(self.cards@.len() as int) =~= self.cards@);
        }
        UserCollection { cards, last_rolled: self.last_rolled, last_inventory: self.last_inventory }
    }
}

impl UserCollection {
    /// The document invariant: card ids are unique and no entry holds zero
    /// copies.
    pub open spec fn wf(self) -> bool {
        unique_ids(self.cards@) && positive_quantities(self.cards@)
    }

    /// The collection read as a map from card id to owned quantity.
    pub open spec fn contents(self) -> Map<Seq<char>, int> {
        entry_map(self.cards@)
    }
}

/// A card id is in the map exactly when some entry carries it.
pub proof fn lemma_entry_map_contains(s: Seq<CollectionCard>, k: Seq<char>)
    ensures
        entry_map(s).dom().contains(k) <==> exists|i: int|
            0 <= i < s.len() && #[trigger] s[i].id@ == k,
    decreases s.len(),
{
    if s.len() > 0 {
        lemma_entry_map_contains(s.drop_last(), k);
        if s.last().id@ == k {
            assert(s[s.len() - 1].id@ == k);
        } else {
            if exists|i: int| 0 <= i < s.len() && #[trigger] s[i].id@ == k {
                let i = choose|i: int| 0 <= i < s.len() && #[trigger] s[i].id@ == k;
                assert(i < s.len() - 1);
                assert(s.drop_last()[i].id@ == k);
            }
        }
    }
}

/// With unique ids, the map's value at an entry's id is that entry's
/// quantity.
pub proof fn lemma_entry_map_lookup(s: Seq<CollectionCard>, f: int)
    requires
        unique_ids(s),
        0 <= f < s.len(),
    ensures
        entry_map(s).dom().contains(s[f].id@),
        entry_map(s)[s[f].id@] == s[f].quantity as int,
    decreases s.len(),
{
    if f == s.len() - 1 {
    } else {
        assert(forall|i: int, j: int|
            0 <= i < j < s.drop_last().len() ==> s.drop_last()[i].id@ != s.drop_last()[j].id@);
        lemma_entry_map_lookup(s.drop_last(), f);
        assert(s.drop_last()[f] == s[f]);
        assert(s[f].id@ != s.last().id@);
    }
}

/// Replacing one entry by another with the same id rewrites only that id's
/// value in the map.
proof fn lemma_entry_map_update(s: Seq<CollectionCard>, f: int, c: CollectionCard)
    requires
        unique_ids(s),
        0 <= f < s.len(),
        c.id@ == s[f].id@,
    ensures
        entry_map(s.update(f, c)) =~= entry_map(s).insert(c.id@, c.quantity as int),
    decreases s.len(),
{
    let t = s.update(f, c);
    if f == s.len() - 1 {
        assert(t.drop_last() =~= s.drop_last());
        assert(t.last() == c);
    } else {
        assert(forall|i: int, j: int|
            0 <= i < j < s.drop_last().len() ==> s.drop_last()[i].id@ != s.drop_last()[j].id@);
        assert(s.drop_last()[f] == s[f]);
        lemma_entry_map_update(s.drop_last(), f, c);
        assert(t.drop_last() =~= s.drop_last().update(f, c));
        assert(t.last() == s.last());
        assert(c.id@ != s.last().id@);
    }
}

/// Removing an entry removes exactly its id from the map.
proof fn lemma_entry_map_remove(s: Seq<CollectionCard>, f: int)
    requires
        unique_ids(s),
        0 <= f < s.len(),
    ensures
        entry_map(s.remove(f)) =~= entry_map(s).remove(s[f].id@),
    decreases s.len(),
{
    let k = s[f].id@;
    if f == s.len() - 1 {
        assert(s.remove(f) =~= s.drop_last());
        lemma_entry_map_contains(s.drop_last(), k);
        assert(forall|i: int| 0 <= i < s.drop_last().len() ==> s.drop_last()[i] == s[i]);
        assert(!entry_map(s.drop_last()).dom().contains(k));
    } else {
        assert(forall|i: int, j: int|
            0 <= i < j < s.drop_last().len() ==> s.drop_last()[i].id@ != s.drop_last()[j].id@);
        assert(s.drop_last()[f] == s[f]);
        lemma_entry_map_remove(s.drop_last(), f);
        assert(s.remove(f).drop_last() =~= s.drop_last().remove(f));
        assert(s.remove(f).last() == s.last());
        assert(k != s.last().id@);
    }
}

/// The map is empty exactly when the entry sequence is.
pub proof fn lemma_entry_map_empty(s: Seq<CollectionCard>)
    ensures
        entry_map(s).dom() =~= Set::<Seq<char>>::empty() <==> s.len() == 0,
{
    if s.len() > 0 {
        assert(entry_map(s).dom().contains(s.last().id@));
    }
}

/// Adding one copy and then taking one copy of the same card restores the
/// collection map, for any map that meets the document invariant (every
/// present quantity is at least one).
pub proof fn lemma_one_more_then_one_less(m: Map<Seq<char>, int>, k: Seq<char>)
    requires
        forall|id: Seq<char>| m.dom().contains(id) ==> m[id] >= 1,
    ensures
        one_less(one_more(m, k), k) =~= m,
{
    if m.dom().contains(k) {
        assert(one_more(m, k) == m.insert(k, m[k] + 1));
        assert(one_more(m, k)[k] == m[k] + 1 >= 2);
        assert(one_less(one_more(m, k), k) =~= m.insert(k, m[k] + 1).insert(k, m[k]));
    } else {
        assert(one_more(m, k) == m.insert(k, 1));
        assert(one_less(one_more(m, k), k) =~= m.insert(k, 1).remove(k));
    }
}

/// Law: when a card was added to an otherwise empty collection and then
/// taken away again, the entries that remain are none at all, so the
/// user's document is deleted rather than written back empty.
pub proof fn lemma_sole_card_leaves_no_document(s: Seq<CollectionCard>, k: Seq<char>)
    requires
        entry_map(s) == one_less(one_more(Map::<Seq<char>, int>::empty(), k), k),
    ensures
        s.len() == 0,
{
    lemma_one_more_then_one_less(Map::<Seq<char>, int>::empty(), k);
    assert(entry_map(s) =~= Map::<Seq<char>, int>::empty());
    lemma_entry_map_empty(s);
    if s.len() > 0 {
        assert(entry_map(s).dom().contains(s.last().id@));
    }
}

/// The contents of a fetched document, an absent document reading as the
/// empty collection.
pub open spec fn contents_of(fetched: Option<UserCollection>) -> Map<Seq<char>, int> {
    match fetched {
        None => Map::empty(),
        Some(c) => c.contents(),
    }
}

/// Every owned quantity still has room for one more copy.
pub open spec fn quantities_below_max(m: Map<Seq<char>, int>) -> bool {
    forall|k: Seq<char>| #[trigger] m.dom().contains(k) ==> m[k] < u16::MAX
}

/// The quantity stored for `k`, read as `0` when absent.
pub open spec fn quantity_of(m: Map<Seq<char>, int>, k: Seq<char>) -> int {
    if m.dom().contains(k) {
        m[k]
    } else {
        0
    }
}

/// Adds one copy of `card_id` to a fetched collection, or begins a new
/// document around it.
///
/// `fetched` is the user's document as read from the store, `None` when no
/// document exists. A new document starts with the single entry, the roll
/// stamp set to `now` (a roll is what first creates a document, and the
/// stamp it persisted at creation time is `now`), and the inventory stamp
/// unset, so the user is immediately eligible for an inventory view.
///
/// Returns the collection to write back and whether the document must be
/// created rather than patched. Exactly one store read (done by the caller
/// beforehand) and at most one store write (done by the caller afterwards)
/// belong to each call, which bounds the read-modify-write race window; the
/// store itself offers no transactions, and two concurrent calls for one
/// user may still lose an update.
pub fn increment_card(fetched: Option<UserCollection>, card_id: &str, now: i64) -> (r: (
    UserCollection,
    bool,
))
    requires
        fetched matches Some(c) ==> c.wf() && quantity_of(c.contents(), card_id@) < u16::MAX,
    ensures
        r.0.wf(),
        r.1 <==> fetched is None,
        fetched matches Some(c) ==> r.0.contents() == one_more(c.contents(), card_id@)
            && r.0.last_rolled == c.last_rolled && r.0.last_inventory == c.last_inventory,
        fetched is None ==> r.0.contents() == one_more(Map::<Seq<char>, int>::empty(), card_id@)
            && r.0.last_rolled == Some(now) && r.0.last_inventory is None,
{
    match fetched {
        None => {
            let mut cards: Vec<CollectionCard> = Vec::new();
            cards.push(CollectionCard { id: card_id.to_owned(), quantity: 1 });
            proof {
                assert(cards@.drop_last() =~= Seq::<CollectionCard>::empty());
                assert(entry_map(cards@.drop_last()) =~= Map::<Seq<char>, int>::empty());
                assert(entry_map(cards@) == entry_map(cards@.drop_last()).insert(
                    cards@.last().id@,
                    cards@.last().quantity as int,
                ));
                assert(entry_map(cards@) =~= one_more(Map::<Seq<char>, int>::empty(), card_id@));
            }
            (UserCollection { cards, last_rolled: Some(now), last_inventory: None }, true)
        },
        Some(col) => {
            let k = Ghost(card_id@);
            let s = Ghost(col.cards@);
            let mut new_cards: Vec<CollectionCard> = Vec::new();
            let mut found = false;
            let ghost mut fidx: int = 0;
            let mut i: usize = 0;
            while i < col.cards.len()
                invariant
                    col.wf(),
                    s@ == col.cards@,
                    k@ == card_id@,
                    quantity_of(entry_map(s@), k@) < u16::MAX,
                    i <= s@.len(),
                    new_cards@.len() == i as int,
                    forall|j: int| 0 <= j < i && (!found || j != fidx) ==> new_cards@[j] == s@[j],
                    !found ==> forall|j: int| 0 <= j < i ==> s@[j].id@ != k@,
                    found ==> 0 <= fidx < i && s@[fidx].id@ == k@ && s@[fidx].quantity < u16::MAX
                        && new_cards@[fidx] == (CollectionCard {
                        id: s@[fidx].id,
                        quantity: (s@[fidx].quantity + 1) as u16,
                    }),
                decreases s@.len() - i,
            {
                let c = &col.cards[i];
                if str_eq(c.id.as_str(), card_id) {
                    proof {
                        lemma_entry_map_lookup(s@, i as int);
                        fidx = i as int;
                    }
                    new_cards.push(CollectionCard { id: c.id.clone(), quantity: c.quantity + 1 });
                    found = true;
                } else {
                    new_cards.push(c.clone());
                }
                i += 1;
            }
            if !found {
                proof {
                    lemma_entry_map_contains(s@, k@);
                    assert(new_cards@ =~= s@);
                }
                new_cards.push(CollectionCard { id: card_id.to_owned(), quantity: 1 });
                proof {
                    assert(new_cards@.drop_last() =~= s@);
                    assert(entry_map(new_cards@) =~= one_more(entry_map(s@), k@));
                }
            } else {
                proof {
                    let c = CollectionCard {
                        id: s@[fidx].id,
                        quantity: (s@[fidx].quantity + 1) as u16,
                    };
                    assert(new_cards@ =~= s@.update(fidx, c));
                    lemma_entry_map_update(s@, fidx, c);
                    lemma_entry_map_lookup(s@, fidx);
                    assert(entry_map(new_cards@) =~= one_more(entry_map(s@), k@));
                }
            }
            (
                UserCollection {
                    cards: new_cards,
                    last_rolled: col.last_rolled,
                    last_inventory: col.last_inventory,
                },
                false,
            )
        },
    }
}

/// Takes one copy of `card_id` out of a fetched collection.
///
/// Fails with `Error::CardNotOwned`, deciding nothing else, when the
/// collection has no entry for the card; the caller then writes nothing
/// back. On success returns the collection to write back, and whether the
/// whole document must be deleted instead because its last entry went away.
pub fn decrement_card(col: UserCollection, card_id: &str) -> (r: Result<
    (UserCollection, bool),
    Error,
>)
    requires
        col.wf(),
    ensures
        r is Ok <==> col.contents().dom().contains(card_id@),
        r matches Err(e) ==> e == Error::CardNotOwned,
        r matches Ok(p) ==> p.0.wf() && p.0.contents() == one_less(col.contents(), card_id@)
            && p.0.last_rolled == col.last_rolled && p.0.last_inventory == col.last_inventory && (
        p.1 <==> p.0.cards@.len() == 0),
{
    let k = Ghost(card_id@);
    let s = Ghost(col.cards@);
    let mut new_cards: Vec<CollectionCard> = Vec::new();
    let mut found = false;
    let ghost mut fidx: int = 0;
    let ghost mut dropped: bool = false;
    let mut i: usize = 0;
    while i < col.cards.len()
        invariant
            col.wf(),
            s@ == col.cards@,
            k@ == card_id@,
            i <= s@.len(),
            !found ==> new_cards@.len() == i as int && (forall|j: int|
                0 <= j < i ==> new_cards@[j] == s@[j]) && (forall|j: int|
                0 <= j < i ==> s@[j].id@ != k@),
            found ==> 0 <= fidx < i && s@[fidx].id@ == k@,
            found && !dropped ==> s@[fidx].quantity > 1 && new_cards@.len() == i as int && (
            forall|j: int| 0 <= j < i && j != fidx ==> new_cards@[j] == s@[j])
                && new_cards@[fidx] == (CollectionCard {
                id: s@[fidx].id,
                quantity: (s@[fidx].quantity - 1) as u16,
            }),
            found && dropped ==> s@[fidx].quantity == 1 && new_cards@.len() == i as int - 1 && (
            forall|j: int| 0 <= j < fidx ==> new_cards@[j] == s@[j]) && (forall|j: int|
                fidx < j < i ==> new_cards@[j - 1] == s@[j]),
        decreases s@.len() - i,
    {
        let c = &col.cards[i];
        if str_eq(c.id.as_str(), card_id) {
            proof {
                fidx = i as int;
            }
            if c.quantity > 1 {
                new_cards.push(CollectionCard { id: c.id.clone(), quantity: c.quantity - 1 });
                proof {
                    dropped = false;
                }
            } else {
                proof {
                    dropped = true;
                }
            }
            found = true;
        } else {
            new_cards.push(c.clone());
        }
        i += 1;
    }
    if !found {
        proof {
            lemma_entry_map_contains(s@, k@);
        }
        return Err(Error::CardNotOwned);
    }
    proof {
        lemma_entry_map_lookup(s@, fidx);
        if dropped {
            assert(new_cards@ =~= s@.remove(fidx));
            lemma_entry_map_remove(s@, fidx);
            assert(entry_map(new_cards@) =~= one_less(entry_map(s@), k@));
        } else {
            let c = CollectionCard { id: s@[fidx].id, quantity: (s@[fidx].quantity - 1) as u16 };
            assert(new_cards@ =~= s@.update(fidx, c));
            lemma_entry_map_update(s@, fidx, c);
            assert(entry_map(new_cards@) =~= one_less(entry_map(s@), k@));
        }
    }
    let del = new_cards.len() == 0;
    Ok(
        (
            UserCollection {
                cards: new_cards,
                last_rolled: col.last_rolled,
                last_inventory: col.last_inventory,
            },
            del,
        ),
    )
}

} // verus!
