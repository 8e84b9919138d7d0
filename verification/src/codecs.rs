//! The encodings the authentication flows rely on: base64, SHA-256,
//! `application/x-www-form-urlencoded`, URL query strings, JSON lookups, and
//! random bytes. Each outside call sits behind one small trusted function;
//! what can be stated in a few lines is stated, the rest is named.

use base64::Engine as _;
use rand::RngCore as _;
use sha2::Digest as _;
use vstd::prelude::*;

verus! {

/// The view of an optional owned string.
pub open spec fn opt_string_view(o: Option<String>) -> Option<Seq<char>> {
    match o {
        Some(s) => Some(s@),
        None => None,
    }
}

/// The view of a list of owned string pairs.
pub open spec fn pairs_view(v: Seq<(String, String)>) -> Seq<(Seq<char>, Seq<char>)> {
    v.map_values(|p: (String, String)| (p.0@, p.1@))
}

// ── base64 ──────────────────────────────────────────────────────────────────

/// The character of the URL-safe base64 alphabet for the 6-bit value `v`.
pub open spec fn b64_url_char(v: int) -> char {
    if v < 26 {
        (65 + v) as char
    } else if v < 52 {
        (97 + v - 26) as char
    } else if v < 62 {
        (48 + v - 52) as char
    } else if v == 62 {
        '-'
    } else {
        '_'
    }
}

/// Unpadded URL-safe base64 (RFC 4648 §5) of `b`.
pub open spec fn b64_url_nopad(b: Seq<u8>) -> Seq<char>
    decreases b.len(),
{
    if b.len() == 0 {
        Seq::empty()
    } else {
        let b0 = b[0] as int;
        if b.len() == 1 {
            seq![b64_url_char(b0 / 4), b64_url_char((b0 % 4) * 16)]
        } else {
            let b1 = b[1] as int;
            if b.len() == 2 {
                seq![
                    b64_url_char(b0 / 4),
                    b64_url_char((b0 % 4) * 16 + b1 / 16),
                    b64_url_char((b1 % 16) * 4),
                ]
            } else {
                let b2 = b[2] as int;
                seq![
                    b64_url_char(b0 / 4),
                    b64_url_char((b0 % 4) * 16 + b1 / 16),
                    b64_url_char((b1 % 16) * 4 + b2 / 64),
                    b64_url_char(b2 % 64),
                ] + b64_url_nopad(b.skip(3))
            }
        }
    }
}

/// Encodes `bytes` as unpadded URL-safe base64
/// (`base64::engine::general_purpose::URL_SAFE_NO_PAD.encode`). The contract
/// states the RFC 4648 encoding the crate documents.
#[verifier::external_body]
pub(crate) fn base64_url_encode(bytes: &[u8]) -> (s: String)
    ensures
        s@ == b64_url_nopad(bytes@),
{
    base64::engine::general_purpose::URL_SAFE_NO_PAD.encode(bytes)
}

/// The character of the standard base64 alphabet for the 6-bit value `v`.
pub open spec fn b64_std_char(v: int) -> char {
    if v == 62 {
        '+'
    } else if v == 63 {
        '/'
    } else {
        b64_url_char(v)
    }
}

/// Padded standard base64 (RFC 4648 §4) of `b`.
pub open spec fn b64_standard(b: Seq<u8>) -> Seq<char>
    decreases b.len(),
{
    if b.len() == 0 {
        Seq::empty()
    } else {
        let b0 = b[0] as int;
        if b.len() == 1 {
            seq![b64_std_char(b0 / 4), b64_std_char((b0 % 4) * 16), '=', '=']
        } else {
            let b1 = b[1] as int;
            if b.len() == 2 {
                seq![
                    b64_std_char(b0 / 4),
                    b64_std_char((b0 % 4) * 16 + b1 / 16),
                    b64_std_char((b1 % 16) * 4),
                    '=',
                ]
            } else {
                let b2 = b[2] as int;
                seq![
                    b64_std_char(b0 / 4),
                    b64_std_char((b0 % 4) * 16 + b1 / 16),
                    b64_std_char((b1 % 16) * 4 + b2 / 64),
                    b64_std_char(b2 % 64),
                ] + b64_standard(b.skip(3))
            }
        }
    }
}

/// Encodes `bytes` as padded standard base64
/// (`base64::engine::general_purpose::STANDARD.encode`). The contract states
/// the RFC 4648 encoding the crate documents.
#[verifier::external_body]
pub(crate) fn base64_standard_encode(bytes: &[u8]) -> (s: String)
    ensures
        s@ == b64_standard(bytes@),
{
    base64::engine::general_purpose::STANDARD.encode(bytes)
}

/// What `URL_SAFE_NO_PAD.decode` returns for `input`: the decoded bytes, or
/// `None` when the input is not canonical unpadded URL-safe base64.
pub uninterp spec fn base64_url_decoded(input: Seq<u8>) -> Option<Seq<u8>>;

/// Decodes unpadded URL-safe base64
/// (`base64::engine::general_purpose::URL_SAFE_NO_PAD.decode`). The result is
/// named, not described: the decoder's acceptance rules take pages.
#[verifier::external_body]
pub(crate) fn base64_url_decode(input: &[u8]) -> (r: Option<Vec<u8>>)
    ensures
        match r {
            Some(b) => base64_url_decoded(input@) == Some(b@),
            None => base64_url_decoded(input@) is None,
        },
{
    base64::engine::general_purpose::URL_SAFE_NO_PAD.decode(input).ok()
}

// ── SHA-256 ─────────────────────────────────────────────────────────────────

/// The SHA-256 digest of `data`.
pub uninterp spec fn sha256(data: Seq<u8>) -> Seq<u8>;

/// Hashes `data` with SHA-256 (`sha2::Sha256::digest`). The digest is named;
/// its 32-byte length is what the crate's output type fixes.
#[verifier::external_body]
pub(crate) fn sha256_digest(data: &[u8]) -> (d: Vec<u8>)
    ensures
        d@ == sha256(data@),
        d@.len() == 32,
{
    sha2::Sha256::digest(data).to_vec()
}

// ── form-urlencoded and URLs ────────────────────────────────────────────────

/// The name/value pairs `form_urlencoded::parse` decodes from `input`.
pub uninterp spec fn form_pairs(input: Seq<u8>) -> Seq<(Seq<char>, Seq<char>)>;

/// Decodes an `application/x-www-form-urlencoded` string
/// (`url::form_urlencoded::parse`), keeping the pairs in order.
#[verifier::external_body]
pub(crate) fn form_urlencoded_pairs(input: &[u8]) -> (r: Vec<(String, String)>)
    ensures
        pairs_view(r@) == form_pairs(input@),
{
    url::form_urlencoded::parse(input).map(|(k, v)| (k.into_owned(), v.into_owned())).collect()
}

/// The query pairs of `input` read as an absolute URL, or `None` when
/// `url::Url::parse` rejects it.
pub uninterp spec fn url_query(input: Seq<char>) -> Option<Seq<(Seq<char>, Seq<char>)>>;

/// Parses `input` as an absolute URL (`url::Url::parse`) and returns its
/// decoded query pairs (`Url::query_pairs`), in order.
#[verifier::external_body]
pub(crate) fn url_query_pairs(input: &str) -> (r: Option<Vec<(String, String)>>)
    ensures
        match r {
            Some(v) => url_query(input@) == Some(pairs_view(v@)),
            None => url_query(input@) is None,
        },
{
    url::Url::parse(input).ok().map(
        |u| u.query_pairs().map(|(k, v)| (k.into_owned(), v.into_owned())).collect(),
    )
}

/// The `application/x-www-form-urlencoded` serialization of `pairs`.
pub uninterp spec fn form_serialized(pairs: Seq<(Seq<char>, Seq<char>)>) -> Seq<char>;

/// Serializes `pairs` in order (`url::form_urlencoded::Serializer` with
/// `extend_pairs` and `finish`).
#[verifier::external_body]
pub(crate) fn form_urlencoded_serialize(pairs: &[(String, String)]) -> (s: String)
    ensures
        s@ == form_serialized(pairs_view(pairs@)),
{
    url::form_urlencoded::Serializer::new(String::new()).extend_pairs(pairs.iter()).finish()
}

// ── JSON ────────────────────────────────────────────────────────────────────

/// The string found at JSON Pointer `pointer` in the JSON document `doc`, or
/// `None` when `doc` is not JSON, nothing is there, or it is not a string.
pub uninterp spec fn json_str_at(doc: Seq<u8>, pointer: Seq<char>) -> Option<Seq<char>>;

/// The unsigned integer found at JSON Pointer `pointer` in `doc`, when there
/// is one that fits in `u64`.
pub uninterp spec fn json_u64_at(doc: Seq<u8>, pointer: Seq<char>) -> Option<u64>;

/// The signed integer found at JSON Pointer `pointer` in `doc`, when there is
/// one that fits in `i64`.
pub uninterp spec fn json_i64_at(doc: Seq<u8>, pointer: Seq<char>) -> Option<i64>;

/// Whether `doc` is JSON with any value at JSON Pointer `pointer`.
pub uninterp spec fn json_present_at(doc: Seq<u8>, pointer: Seq<char>) -> bool;

/// Reads a string out of a JSON document (`serde_json::from_slice` into a
/// `Value`, then `Value::pointer` and `Value::as_str`).
#[verifier::external_body]
pub(crate) fn json_string_at(doc: &[u8], pointer: &str) -> (r: Option<String>)
    ensures
        opt_string_view(r) == json_str_at(doc@, pointer@),
{
    serde_json::from_slice::<serde_json::Value>(doc).ok()?.pointer(pointer)?.as_str().map(
        str::to_owned,
    )
}

/// Reads an unsigned integer out of a JSON document (`serde_json::from_slice`
/// into a `Value`, then `Value::pointer` and `Value::as_u64`).
#[verifier::external_body]
pub(crate) fn json_u64_value_at(doc: &[u8], pointer: &str) -> (r: Option<u64>)
    ensures
        r == json_u64_at(doc@, pointer@),
{
    serde_json::from_slice::<serde_json::Value>(doc).ok()?.pointer(pointer)?.as_u64()
}

/// Reads a signed integer out of a JSON document (`serde_json::from_slice`
/// into a `Value`, then `Value::pointer` and `Value::as_i64`).
#[verifier::external_body]
pub(crate) fn json_i64_value_at(doc: &[u8], pointer: &str) -> (r: Option<i64>)
    ensures
        r == json_i64_at(doc@, pointer@),
{
    serde_json::from_slice::<serde_json::Value>(doc).ok()?.pointer(pointer)?.as_i64()
}

/// Whether a JSON document holds a value at a pointer
/// (`serde_json::from_slice` into a `Value`, then `Value::pointer`).
#[verifier::external_body]
pub(crate) fn json_has_value_at(doc: &[u8], pointer: &str) -> (r: bool)
    ensures
        r == json_present_at(doc@, pointer@),
{
    match serde_json::from_slice::<serde_json::Value>(doc) {
        Ok(value) => value.pointer(pointer).is_some(),
        Err(_) => false,
    }
}

/// A JSON Pointer reference token for an object key: `~` becomes `~0` and `/`
/// becomes `~1` (RFC 6901 §3).
pub open spec fn pointer_token(key: Seq<char>) -> Seq<char>
    decreases key.len(),
{
    if key.len() == 0 {
        Seq::empty()
    } else {
        let head = if key[0] == '~' {
            seq!['~', '0']
        } else if key[0] == '/' {
            seq!['~', '1']
        } else {
            seq![key[0]]
        };
        head + pointer_token(key.drop_first())
    }
}

/// The JSON Pointer that walks the object keys `keys` in order.
pub open spec fn json_pointer(keys: Seq<Seq<char>>) -> Seq<char>
    decreases keys.len(),
{
    if keys.len() == 0 {
        Seq::empty()
    } else {
        json_pointer(keys.drop_last()) + seq!['/'] + pointer_token(keys.last())
    }
}

/// Escapes one object key as a JSON Pointer token.
fn pointer_token_of(key: &str) -> (t: Vec<char>)
    ensures
        t@ == pointer_token(key@),
{
    let cs = crate::text::chars_of(key);
    let mut i: usize = cs.len();
    // Built from the back, so each step prepends one escaped character.
    let mut acc: Vec<char> = Vec::new();
    proof {
        assert(cs@.skip(cs@.len() as int) =~= Seq::<char>::empty());
    }
    while i > 0
        invariant
            i <= cs@.len(),
            acc@ == pointer_token(cs@.skip(i as int)),
        decreases i,
    {
        let c = cs[i - 1];
        let mut next: Vec<char> = Vec::new();
        if c == '~' {
            next.push('~');
            next.push('0');
        } else if c == '/' {
            next.push('~');
            next.push('1');
        } else {
            next.push(c);
        }
        let ghost head = next@;
        let mut k: usize = 0;
        while k < acc.len()
            invariant
                k <= acc@.len(),
                next@ == head + acc@.take(k as int),
            decreases acc@.len() - k,
        {
            next.push(acc[k]);
            k = k + 1;
            assert(next@ =~= head + acc@.take(k as int));
        }
        proof {
            let s = cs@.skip(i - 1);
            assert(s.drop_first() =~= cs@.skip(i as int));
            assert(acc@.take(acc@.len() as int) =~= acc@);
        }
        acc = next;
        i = i - 1;
    }
    proof {
        assert(cs@.skip(0) =~= cs@);
    }
    acc
}

/// Builds the JSON Pointer that walks the object keys `keys` in order.
pub fn json_pointer_of(keys: &[&str]) -> (p: String)
    ensures
        p@ == json_pointer(keys@.map_values(|k: &str| k@)),
{
    let ghost views = keys@.map_values(|k: &str| k@);
    let mut out: Vec<char> = Vec::new();
    let mut i: usize = 0;
    proof {
        assert(views.take(0) =~= Seq::<Seq<char>>::empty());
    }
    while i < keys.len()
        invariant
            i <= keys@.len(),
            views == keys@.map_values(|k: &str| k@),
            out@ == json_pointer(views.take(i as int)),
        decreases keys@.len() - i,
    {
        let token = pointer_token_of(keys[i]);
        let ghost before = out@;
        out.push('/');
        let mut k: usize = 0;
        while k < token.len()
            invariant
                k <= token@.len(),
                out@ == before + seq!['/'] + token@.take(k as int),
            decreases token@.len() - k,
        {
            out.push(token[k]);
            k = k + 1;
            assert(out@ =~= before + seq!['/'] + token@.take(k as int));
        }
        proof {
            assert(token@.take(token@.len() as int) =~= token@);
            assert(views.take(i + 1).drop_last() =~= views.take(i as int));
            assert(views.take(i + 1).last() == views[i as int]);
        }
        i = i + 1;
    }
    proof {
        assert(views.take(keys@.len() as int) =~= views);
    }
    crate::text::string_from_chars(out.as_slice())
}

// ── Randomness and case mapping ─────────────────────────────────────────────

/// Draws `n` random bytes from the thread-local generator (`rand::rng` and
/// `Rng::fill_bytes`). Only the length is promised: the bytes are chance.
#[verifier::external_body]
pub(crate) fn random_bytes(n: usize) -> (b: Vec<u8>)
    ensures
        b@.len() == n,
{
    let mut bytes = vec![0u8; n];
    rand::rng().fill_bytes(&mut bytes);
    bytes
}

/// The Unicode lowercase mapping of `s`, as `str::to_lowercase` computes it.
pub uninterp spec fn lowercase(s: Seq<char>) -> Seq<char>;

/// Whether every character of `s` is ASCII.
pub open spec fn all_ascii(s: Seq<char>) -> bool {
    forall|i: int| 0 <= i < s.len() ==> (#[trigger] s[i]) as int <= 127
}

/// ASCII lowercasing: `A`..`Z` become `a`..`z`, everything else is kept.
pub open spec fn ascii_lower(s: Seq<char>) -> Seq<char> {
    s.map_values(|c: char| if 65 <= c as int <= 90 { (c as int + 32) as char } else { c })
}

/// Lowercases `s` (`str::to_lowercase`). The Unicode case tables are named,
/// not restated; on ASCII text the mapping is the ASCII one, which the
/// contract states.
#[verifier::external_body]
pub(crate) fn to_lowercase(s: &str) -> (r: String)
    ensures
        r@ == lowercase(s@),
        all_ascii(s@) ==> r@ == ascii_lower(s@),
{
    s.to_lowercase()
}

} // verus!
