use vstd::prelude::*;
use crate::collection::UserCollection;

verus! {

/// Which cooldown a store operation consults.
#[derive(Clone, Copy, Debug, PartialEq, Eq, Structural)]
pub enum CooldownKind {
    Roll,
    Inventory,
}

/// Whether a user whose last stamp is `last` is eligible again at `now`,
/// with a window of `window` seconds between actions. An absent stamp
/// means the action never happened, which is always eligible.
pub open spec fn cooldown_eligible(last: Option<i64>, now: int, window: int) -> bool {
    match last {
        None => true,
        Some(t) => now - t > window,
    }
}

/// Couples the cooldown check with its refresh: reports whether the user
/// is eligible, and hands back the stamp to persist exactly when it
/// reports eligible, so no caller ever decides separately whether to
/// stamp.
///
/// Returns the eligibility and the timestamp to write: `Some(now)` when
/// eligible, `None` otherwise (nothing is written).
pub fn check_and_refresh_cooldown(last: Option<i64>, now: i64, window: i64) -> (r: (
    bool,
    Option<i64>,
))
    requires
        0 <= window,
        0 <= now,
        last matches Some(t) ==> 0 <= t,
    ensures
        r.0 == cooldown_eligible(last, now as int, window as int),
        r.0 ==> r.1 == Some(now),
        !r.0 ==> r.1 is None,
{
    match last {
        None => (true, Some(now)),
        Some(t) => {
            if now - t > window {
                (true, Some(now))
            } else {
                (false, None)
            }
        },
    }
}

/// The requested stamp of a user's document.
pub open spec fn spec_stamp(col: UserCollection, which: CooldownKind) -> Option<i64> {
    match which {
        CooldownKind::Roll => col.last_rolled,
        CooldownKind::Inventory => col.last_inventory,
    }
}

/// Checks and refreshes one of a document's cooldown stamps in place:
/// reports whether the user is eligible and stamps `now` into the chosen
/// field exactly when it reports eligible, leaving the entries and the
/// other stamp alone. The caller persists the stamped field exactly when
/// `true` comes back, and writes nothing otherwise.
pub fn refresh_collection_cooldown(
    col: &mut UserCollection,
    which: CooldownKind,
    now: i64,
    window: i64,
) -> (r: bool)
    requires
        0 <= window,
        0 <= now,
        spec_stamp(*old(col), which) matches Some(t) ==> 0 <= t,
    ensures
        r == cooldown_eligible(spec_stamp(*old(col), which), now as int, window as int),
        r ==> spec_stamp(*final(col), which) == Some(now),
        !r ==> *final(col) == *old(col),
        final(col).cards@ == old(col).cards@,
        which is Roll ==> final(col).last_inventory == old(col).last_inventory,
        which is Inventory ==> final(col).last_rolled == old(col).last_rolled,
{
    let last = match which {
        CooldownKind::Roll => col.last_rolled,
        CooldownKind::Inventory => col.last_inventory,
    };
    let (eligible, stamp) = check_and_refresh_cooldown(last, now, window);
    if eligible {
        match which {
            CooldownKind::Roll => {
                col.last_rolled = stamp;
            },
            CooldownKind::Inventory => {
                col.last_inventory = stamp;
            },
        }
    }
    eligible
}

/// Law: a first eligible check stamps its own instant; a second check
/// within the window of that stamp is refused; a third check more than a
/// full window after the stamp is eligible again.
pub proof fn lemma_cooldown_check_sequence(t1: i64, t2: i64, t3: i64, window: i64)
    requires
        0 <= window,
        t1 <= t2,
        t2 - t1 <= window,
        t3 - t1 > window,
    ensures
        cooldown_eligible(None, t1 as int, window as int),
        !cooldown_eligible(Some(t1), t2 as int, window as int),
        cooldown_eligible(Some(t1), t3 as int, window as int),
{
}

} // verus!
