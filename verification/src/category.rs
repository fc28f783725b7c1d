use vstd::prelude::*;
use vstd::string::StringExecFns;
use crate::text::str_eq;

verus! {

/// Whether `s` is the canonical name of the characters category or one of
/// its accepted aliases.
pub open spec fn is_characters_alias(s: Seq<char>) -> bool {
    ||| s == "c"@
    ||| s == "characters"@
    ||| s == "chars"@
    ||| s == "char"@
}

/// Whether `s` is the canonical name of the posters category or one of its
/// accepted aliases.
pub open spec fn is_posters_alias(s: Seq<char>) -> bool {
    ||| s == "p"@
    ||| s == "posters"@
    ||| s == "poster"@
}

/// Whether `s` names any known category.
pub open spec fn is_known_category(s: Seq<char>) -> bool {
    is_characters_alias(s) || is_posters_alias(s)
}

/// Resolves a user-typed category name or alias to its canonical name.
///
/// Unknown input is rejected with a message that repeats the input and
/// names the valid categories.
pub fn get_category(input: String) -> (r: Result<String, String>)
    ensures
        r is Ok <==> is_known_category(input@),
        is_characters_alias(input@) ==> (r matches Ok(c) && c@ == "characters"@),
        !is_characters_alias(input@) && is_posters_alias(input@) ==> (r matches Ok(c) && c@
            == "posters"@),
        r matches Err(m) ==> m@ == "Did not recognize category: "@ + input@
            + ". Valid categories include \"characters\" and \"posters\"."@,
{
    let s = input.as_str();
    if str_eq(s, "c") || str_eq(s, "characters") || str_eq(s, "chars") || str_eq(s, "char") {
        Ok("characters".to_owned())
    } else if str_eq(s, "p") || str_eq(s, "posters") || str_eq(s, "poster") {
        Ok("posters".to_owned())
    } else {
        let mut msg = "Did not recognize category: ".to_owned();
        msg.append(input.as_str());
        msg.append(". Valid categories include \"characters\" and \"posters\".");
        Err(msg)
    }
}

} // verus!
