//! Parsing whatever the user pastes back from the authorization page.
//!
//! Browsers and providers hand the result back in several shapes. jinn
//! accepts the full redirect URL, a bare `code=...&state=...` query fragment,
//! the `code#state` form Codex shows, or the authorization code on its own.

use vstd::prelude::*;
use vstd::utf8::encode_utf8;

use crate::codecs::{form_pairs, form_urlencoded_pairs, opt_string_view, pairs_view, url_query, url_query_pairs};
use crate::text::{chars_of, contains_chars, contains_seq, split_once, split_once_chars, string_from_chars, lemma_trim_idempotent, trim, trim_chars};

verus! {

/// An authorization result pasted by the user.
#[derive(Debug, Clone, PartialEq, Eq, Default)]
pub struct AuthorizationInput {
    /// The authorization code, when one could be found.
    pub code: Option<String>,
    /// The `state` value that accompanied the code, when present.
    pub state: Option<String>,
}

/// The value of the last pair named `key`, as a loop that overwrites on every
/// match leaves it.
pub open spec fn last_value(pairs: Seq<(Seq<char>, Seq<char>)>, key: Seq<char>) -> Option<Seq<char>>
    decreases pairs.len(),
{
    if pairs.len() == 0 {
        None
    } else if pairs.last().0 == key {
        Some(pairs.last().1)
    } else {
        last_value(pairs.drop_last(), key)
    }
}

/// The code and state a pasted input carries.
pub open spec fn parsed_input(input: Seq<char>) -> (Option<Seq<char>>, Option<Seq<char>>) {
    let value = trim(input);
    if value.len() == 0 {
        (None, None)
    } else if url_query(value) is Some {
        let pairs = url_query(value)->Some_0;
        (last_value(pairs, "code"@), last_value(pairs, "state"@))
    } else if split_once(value, '#') is Some {
        let (code, state) = split_once(value, '#')->Some_0;
        (Some(code), Some(state))
    } else if contains_seq(value, "code="@) {
        let pairs = form_pairs(encode_utf8(value));
        (last_value(pairs, "code"@), last_value(pairs, "state"@))
    } else {
        (Some(value), None)
    }
}

/// The pair views of an input's code and state.
pub open spec fn input_view(a: AuthorizationInput) -> (Option<Seq<char>>, Option<Seq<char>>) {
    (opt_string_view(a.code), opt_string_view(a.state))
}

/// Picks the last `code` and `state` out of decoded query pairs.
fn code_and_state(pairs: &Vec<(String, String)>) -> (r: AuthorizationInput)
    ensures
        input_view(r) == (last_value(pairs_view(pairs@), "code"@), last_value(
            pairs_view(pairs@),
            "state"@,
        )),
{
    let code_key = chars_of("code");
    let state_key = chars_of("state");
    let mut parsed = AuthorizationInput { code: None, state: None };
    let mut i: usize = 0;
    while i < pairs.len()
        invariant
            i <= pairs@.len(),
            code_key@ == "code"@,
            state_key@ == "state"@,
            input_view(parsed) == (last_value(pairs_view(pairs@.take(i as int)), "code"@), last_value(
                pairs_view(pairs@.take(i as int)),
                "state"@,
            )),
        decreases pairs@.len() - i,
    {
        let key = chars_of(pairs[i].0.as_str());
        let value = pairs[i].1.clone();
        let ghost prefix = pairs_view(pairs@.take(i + 1));
        proof {
            reveal_strlit("code");
            reveal_strlit("state");
            assert("code"@ != "state"@) by {
                assert("code"@[0] != "state"@[0]);
            }
            assert(pairs@.take(i + 1).drop_last() =~= pairs@.take(i as int));
            assert(prefix.drop_last() =~= pairs_view(pairs@.take(i as int)));
            assert(prefix.last() == (pairs@[i as int].0@, pairs@[i as int].1@));
        }
        if crate::text::chars_eq(key.as_slice(), code_key.as_slice()) {
            parsed.code = Some(value);
        } else if crate::text::chars_eq(key.as_slice(), state_key.as_slice()) {
            parsed.state = Some(value);
        }
        i = i + 1;
    }
    proof {
        assert(pairs@.take(pairs@.len() as int) =~= pairs@);
    }
    parsed
}

/// Parses pasted authorization input.
pub fn parse(input: &str) -> (r: AuthorizationInput)
    ensures
        input_view(r) == parsed_input(input@),
{
    let cs = chars_of(input);
    let value_chars = trim_chars(cs.as_slice());
    if value_chars.len() == 0 {
        return AuthorizationInput { code: None, state: None };
    }
    let value = string_from_chars(value_chars.as_slice());
    if let Some(pairs) = url_query_pairs(value.as_str()) {
        return code_and_state(&pairs);
    }
    if let Some((code, state)) = split_once_chars(value_chars.as_slice(), '#') {
        return AuthorizationInput {
            code: Some(string_from_chars(code.as_slice())),
            state: Some(string_from_chars(state.as_slice())),
        };
    }
    let marker = chars_of("code=");
    if contains_chars(value_chars.as_slice(), marker.as_slice()) {
        let pairs = form_urlencoded_pairs(value.as_str().as_bytes());
        return code_and_state(&pairs);
    }
    AuthorizationInput { code: Some(value), state: None }
}

/// White space around a pasted input never matters: the input reads exactly
/// as its trimmed form does, so a code or state pasted with surrounding
/// spaces or a trailing newline is the same code or state.
pub proof fn lemma_surrounding_space_is_ignored(input: Seq<char>)
    ensures
        parsed_input(input) == parsed_input(trim(input)),
{
    lemma_trim_idempotent(input);
}

} // verus!
