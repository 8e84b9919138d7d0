//! Reading the ChatGPT account id out of an access token.
//!
//! Codex requests must name the account the subscription belongs to. The
//! provider carries that id as a claim inside the access token, so it is read
//! back out after each exchange. The token is a bearer credential just
//! received over TLS from its issuer; its payload is read for the account id,
//! not trusted as an authorization decision, so the signature is not checked.

use vstd::prelude::*;
use vstd::utf8::encode_utf8;

use crate::codecs::{base64_url_decode, base64_url_decoded, json_pointer, json_pointer_of, json_str_at, json_string_at, opt_string_view};
use crate::text::{chars_of, split_char, split_on_char, string_from_chars};

verus! {

/// Claim namespace that holds OpenAI's auth metadata.
pub const AUTH_CLAIM: &'static str = "https://api.openai.com/auth";

/// The claim inside [`AUTH_CLAIM`] that names the account.
pub const ACCOUNT_ID_CLAIM: &'static str = "chatgpt_account_id";

/// The payload segment of a JWT: the middle one of exactly three
/// dot-separated segments.
pub open spec fn jwt_payload_segment(token: Seq<char>) -> Option<Seq<char>> {
    let segments = split_char(token, '.');
    if segments.len() == 3 {
        Some(segments[1])
    } else {
        None
    }
}

/// The JSON Pointer of the account claim.
pub open spec fn account_claim_pointer() -> Seq<char> {
    json_pointer(seq![AUTH_CLAIM@, ACCOUNT_ID_CLAIM@])
}

/// The account id a token carries: the non-empty string claim at
/// [`AUTH_CLAIM`]`.chatgpt_account_id` of its base64url-decoded JSON payload.
pub open spec fn account_id_of(token: Seq<char>) -> Option<Seq<char>> {
    match jwt_payload_segment(token) {
        None => None,
        Some(segment) => match base64_url_decoded(encode_utf8(segment)) {
            None => None,
            Some(payload) => match json_str_at(payload, account_claim_pointer()) {
                Some(id) => if id.len() > 0 {
                    Some(id)
                } else {
                    None
                },
                None => None,
            },
        },
    }
}

/// Decodes the payload segment of a JWT, without verifying its signature.
fn jwt_payload(token: &str) -> (r: Option<Vec<u8>>)
    ensures
        match jwt_payload_segment(token@) {
            None => r is None,
            Some(segment) => match r {
                Some(bytes) => base64_url_decoded(encode_utf8(segment)) == Some(bytes@),
                None => base64_url_decoded(encode_utf8(segment)) is None,
            },
        },
{
    let cs = chars_of(token);
    let segments = split_on_char(cs.as_slice(), '.');
    if segments.len() != 3 {
        return None;
    }
    let payload = string_from_chars(segments[1].as_slice());
    proof {
        assert(segments@.map_values(|p: Vec<char>| p@)[1] == segments@[1]@);
    }
    base64_url_decode(payload.as_str().as_bytes())
}

/// Extracts the ChatGPT account id from a JWT access token.
///
/// Returns `None` when the token is not a JWT, its payload is unreadable, or
/// the account claim is absent or empty.
pub fn account_id_from_access_token(access_token: &str) -> (r: Option<String>)
    ensures
        opt_string_view(r) == account_id_of(access_token@),
{
    let payload = match jwt_payload(access_token) {
        Some(p) => p,
        None => return None,
    };
    let keys: [&str; 2] = [AUTH_CLAIM, ACCOUNT_ID_CLAIM];
    let pointer = json_pointer_of(&keys);
    proof {
        assert(keys@.map_values(|k: &str| k@) =~= seq![AUTH_CLAIM@, ACCOUNT_ID_CLAIM@]);
    }
    match json_string_at(payload.as_slice(), pointer.as_str()) {
        Some(id) => {
            if id.as_str().is_empty() {
                None
            } else {
                Some(id)
            }
        },
        None => None,
    }
}

} // verus!
