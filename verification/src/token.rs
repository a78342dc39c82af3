//! Session tokens: a user id, `_`, and a random tail.

use crate::picture::{fresh_uuid_text, is_uuid_text};
use crate::text::{
    chars_of, contains_char, find_from, first_index, lemma_first_index, lemma_first_index_is,
    push_text, slice_of, string_of,
};
use vstd::prelude::*;

verus! {

/// What a token that has no `_` is refused with.
pub open spec fn bad_token_message() -> Seq<char> {
    "无效的令牌格式"@
}

/// The user id of a token: what stands before its first `_`.
pub open spec fn validate_token_spec(token: Seq<char>) -> Result<Seq<char>, Seq<char>> {
    if contains_char(token, '_') {
        Ok(token.subrange(0, first_index(token, '_')))
    } else {
        Err(bad_token_message())
    }
}

/// The texts of a result of strings.
pub open spec fn result_text(r: Result<String, String>) -> Result<Seq<char>, Seq<char>> {
    match r {
        Ok(s) => Ok(s@),
        Err(e) => Err(e@),
    }
}

/// Reads the user id out of a token; a token without `_` is refused.
pub fn validate_token(token: &str) -> (out: Result<String, String>)
    ensures
        result_text(out) == validate_token_spec(token@),
{
    let chars = chars_of(token);
    let at = find_from(&chars, 0, '_');
    assert(chars@.subrange(0, chars.len() as int) == chars@);
    if at < chars.len() {
        let user = slice_of(&chars, 0, at);
        Ok(string_of(&user))
    } else {
        Err(String::from_str("无效的令牌格式"))
    }
}

/// The token for `user_id` with the given tail.
pub fn token_with_tail(user_id: &str, tail: &str) -> (token: String)
    ensures
        token@ == user_id@ + "_"@ + tail@,
{
    let mut chars = chars_of(user_id);
    push_text(&mut chars, "_");
    push_text(&mut chars, tail);
    string_of(&chars)
}

/// A new token for `user_id`, with a fresh random tail.
pub fn generate_token(user_id: &str) -> (token: String)
    ensures
        exists|tail: Seq<char>| is_uuid_text(tail) && token@ == user_id@ + "_"@ + tail,
{
    let tail = fresh_uuid_text();
    token_with_tail(user_id, tail.as_str())
}

/// A token made for a user id is read back as that id, up to the id's own
/// first `_`; an id without `_` comes back whole.
pub proof fn lemma_token_round_trip(user_id: Seq<char>, tail: Seq<char>)
    ensures
        validate_token_spec(user_id + "_"@ + tail) == Ok::<Seq<char>, Seq<char>>(
            user_id.subrange(0, first_index(user_id, '_')),
        ),
        !contains_char(user_id, '_') ==> validate_token_spec(user_id + "_"@ + tail) == Ok::<
            Seq<char>,
            Seq<char>,
        >(user_id),
{
    reveal_strlit("_");
    let token = user_id + "_"@ + tail;
    lemma_first_index(user_id, '_');
    let k = first_index(user_id, '_');
    assert("_"@.len() == 1 && "_"@[0] == '_');
    assert(token[user_id.len() as int] == '_');
    assert forall|i: int| 0 <= i < k implies token[i] != '_' by {
        assert(token[i] == user_id[i]);
    }
    if k < user_id.len() {
        assert(token[k] == user_id[k]);
    }
    lemma_first_index_is(token, '_', k);
    assert(token.subrange(0, k) =~= user_id.subrange(0, k));
    if !contains_char(user_id, '_') {
        assert(user_id.subrange(0, k) =~= user_id);
    }
}

} // verus!
