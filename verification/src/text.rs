use vstd::prelude::*;
use vstd::string::StrSliceExecFns;

verus! {

/// Strips the first and last character of `value`; the empty string where
/// `value` has fewer than two characters.
///
/// The document store hands some field values back as quoted JSON strings;
/// this removes the surrounding pair of quotes.
pub fn rm_quotes(value: String) -> (r: String)
    ensures
        value@.len() >= 2 ==> r@ == value@.subrange(1, value@.len() - 1),
        value@.len() < 2 ==> r@ == Seq::<char>::empty(),
{
    let n: usize = value.as_str().unicode_len();
    if n < 2 {
        String::new()
    } else {
        value.as_str().substring_char(1, n - 1).to_owned()
    }
}

/// Character-for-character string equality, reflected into the views.
pub fn str_eq(a: &str, b: &str) -> (r: bool)
    ensures
        r == (a@ == b@),
{
    let n: usize = a.unicode_len();
    if n != b.unicode_len() {
        return false;
    }
    let mut i: usize = 0;
    while i < n
        invariant
            n == a@.len(),
            n == b@.len(),
            i <= n,
            forall|j: int| 0 <= j < i ==> a@[j] == b@[j],
        decreases n - i,
    {
        if a.get_char(i) != b.get_char(i) {
            return false;
        }
        i += 1;
    }
    proof {
        assert(a@ =~= b@);
    }
    true
}

/// Whether `c` is one of the characters '0' through '9'.
pub open spec fn is_decimal_digit(c: char) -> bool {
    48 <= c as int && c as int <= 57
}

/// The numeric value of a decimal digit character.
pub open spec fn digit_value(c: char) -> int {
    c as int - 48
}

/// Whether every character of `s` is a decimal digit.
pub open spec fn all_decimal_digits(s: Seq<char>) -> bool {
    forall|i: int| 0 <= i < s.len() ==> is_decimal_digit(s[i])
}

/// The number that `s` denotes in decimal, most significant digit first.
pub open spec fn decimal_value(s: Seq<char>) -> int
    decreases s.len(),
{
    if s.len() == 0 {
        0
    } else {
        10 * decimal_value(s.drop_last()) + digit_value(s.last())
    }
}

proof fn lemma_decimal_value_nonneg(s: Seq<char>)
    requires
        all_decimal_digits(s),
    ensures
        decimal_value(s) >= 0,
    decreases s.len(),
{
    if s.len() > 0 {
        assert forall|i: int| 0 <= i < s.drop_last().len() implies #[trigger] is_decimal_digit(
            s.drop_last()[i],
        ) by {
            assert(s.drop_last()[i] == s[i]);
        }
        lemma_decimal_value_nonneg(s.drop_last());
    }
}

/// A longer digit string never denotes a smaller number than its prefix.
proof fn lemma_decimal_value_prefix_le(s: Seq<char>, i: int)
    requires
        all_decimal_digits(s),
        0 <= i <= s.len(),
    ensures
        decimal_value(s.take(i)) <= decimal_value(s),
    decreases s.len() - i,
{
    if i == s.len() {
        assert(s.take(i) =~= s);
    } else {
        assert(s.take(i + 1).drop_last() =~= s.take(i));
        assert(s.take(i + 1).last() == s[i]);
        assert forall|j: int| 0 <= j < s.take(i).len() implies #[trigger] is_decimal_digit(
            s.take(i)[j],
        ) by {
            assert(s.take(i)[j] == s[j]);
        }
        lemma_decimal_value_nonneg(s.take(i));
        assert(decimal_value(s.take(i + 1)) == 10 * decimal_value(s.take(i)) + digit_value(s[i]));
        lemma_decimal_value_prefix_le(s, i + 1);
    }
}

/// Reads a base-ten number from `s`: `Some` exactly when `s` is a non-empty
/// string of decimal digits denoting a value that fits in a `u16`.
///
/// Stored quantities are written by this library as plain digit strings,
/// so this is the full grammar a well-formed document can hold.
pub fn parse_u16(s: &str) -> (r: Option<u16>)
    ensures
        r is Some <==> (s@.len() > 0 && all_decimal_digits(s@) && decimal_value(s@)
            <= u16::MAX),
        r is Some ==> r->0 as int == decimal_value(s@),
{
    let n: usize = s.unicode_len();
    if n == 0 {
        return None;
    }
    let mut value: u32 = 0;
    let mut i: usize = 0;
    while i < n
        invariant
            n == s@.len(),
            0 < n,
            i <= n,
            all_decimal_digits(s@.take(i as int)),
            value as int == decimal_value(s@.take(i as int)),
            value <= 65535,
        decreases n - i,
    {
        let c = s.get_char(i);
        let d = c as u32;
        if d < 48 || d > 57 {
            assert(!is_decimal_digit(s@[i as int]));
            return None;
        }
        proof {
            assert(s@.take(i as int + 1).drop_last() =~= s@.take(i as int));
            assert(s@.take(i as int + 1).last() == s@[i as int]);
            assert forall|j: int| 0 <= j < i as int + 1 implies #[trigger] is_decimal_digit(
                s@.take(i as int + 1)[j],
            ) by {
                if j < i as int {
                    assert(s@.take(i as int + 1)[j] == s@.take(i as int)[j]);
                } else {
                    assert(s@.take(i as int + 1)[j] == s@[i as int]);
                }
            }
        }
        let next = value * 10 + (d - 48);
        if next > 65535 {
            proof {
                if all_decimal_digits(s@) && decimal_value(s@) <= u16::MAX {
                    lemma_decimal_value_prefix_le(s@, i as int + 1);
                }
            }
            return None;
        }
        value = next;
        i += 1;
    }
    proof {
        assert(s@.take(n as int) =~= s@);
    }
    Some(value as u16)
}

} // verus!
