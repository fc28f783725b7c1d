use vstd::prelude::*;
use crate::card::GeneratedCard;
use crate::text::str_eq;

verus! {

/// The case-folded form of a character sequence. What it is for a given
/// sequence is the standard library's to say; it depends on the
/// characters alone.
pub uninterp spec fn case_folded(s: Seq<char>) -> Seq<char>;

/// Relies on str::to_lowercase: the folded text is a function of the
/// characters alone, independent of any locale.
#[verifier::external_body]
fn fold_case(s: &str) -> (r: String)
    ensures
        r@ == case_folded(s@),
{
    s.to_lowercase()
}

/// The subsequence of `cards` whose case-folded category is `category`.
pub open spec fn spec_filter_by_category(cards: Seq<GeneratedCard>, category: Seq<char>) -> Seq<
    GeneratedCard,
> {
    cards.filter(|c: GeneratedCard| case_folded(c.category@) == category)
}

/// Keeps, in order, exactly the cards whose case-folded category equals
/// `category` (which callers pass already lower-case, as `get_category`
/// canonicalizes it).
pub fn filter_by_category(cards: Vec<GeneratedCard>, category: &str) -> (r: Vec<GeneratedCard>)
    ensures
        r@ == spec_filter_by_category(cards@, category@),
{
    let mut r: Vec<GeneratedCard> = Vec::new();
    let mut i: usize = 0;
    while i < cards.len()
        invariant
            i <= cards@.len(),
            r@ =~= spec_filter_by_category(cards@.take(i as int), category@),
        decreases cards@.len() - i,
    {
        let folded = fold_case(cards[i].category.as_str());
        let matched = str_eq(folded.as_str(), category);
        if matched {
            r.push(cards[i].clone());
        }
        proof {
            reveal(Seq::filter);
            assert(cards@.take(i as int + 1).drop_last() =~= cards@.take(i as int));
            assert(cards@.take(i as int + 1).last() == cards@[i as int]);
            assert(r@ =~= spec_filter_by_category(cards@.take(i as int + 1), category@));
        }
        i += 1;
    }
    proof {
        assert(cards@.take(cards@.len() as int) =~= cards@);
    }
    r
}

} // verus!
