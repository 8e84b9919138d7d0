//! PKCE verifier and challenge generation (RFC 7636, `S256`), and the random
//! `state` value that protects the redirect against forgery.

use vstd::prelude::*;
use vstd::utf8::encode_utf8;

use crate::codecs::{b64_url_char, b64_url_nopad, base64_url_encode, random_bytes, sha256, sha256_digest};
use crate::text::string_from_chars;

verus! {

/// Number of random bytes behind a verifier. RFC 7636 allows 32-96 octets.
pub const VERIFIER_BYTES: usize = 32;

/// Number of random bytes behind a `state` value.
pub const STATE_BYTES: usize = 16;

/// A PKCE verifier and its derived challenge.
#[derive(Debug, Clone, PartialEq, Eq)]
pub struct Pkce {
    /// The high-entropy secret kept by the client until the token exchange.
    pub verifier: String,
    /// The `S256` hash of the verifier, sent with the authorization request.
    pub challenge: String,
}

/// The `S256` challenge for a verifier: unpadded URL-safe base64 of the
/// SHA-256 of its UTF-8 bytes.
pub open spec fn s256_challenge(verifier: Seq<char>) -> Seq<char> {
    b64_url_nopad(sha256(encode_utf8(verifier)))
}

/// Lowercase hexadecimal digit for `v` in `0..16`.
pub open spec fn hex_digit(v: int) -> char {
    if v < 10 {
        (48 + v) as char
    } else {
        (97 + v - 10) as char
    }
}

/// Lowercase hexadecimal encoding of `b`, two digits per byte.
pub open spec fn hex_lower(b: Seq<u8>) -> Seq<char>
    decreases b.len(),
{
    if b.len() == 0 {
        Seq::empty()
    } else {
        seq![hex_digit(b[0] as int / 16), hex_digit(b[0] as int % 16)] + hex_lower(b.drop_first())
    }
}

/// The length of an unpadded base64 encoding.
pub open spec fn b64_len(n: nat) -> nat {
    (n / 3) * 4 + if n % 3 == 0 {
        0
    } else {
        n % 3 + 1
    }
}

/// Whether `c` is in the URL-safe base64 alphabet: ASCII letters, digits,
/// `-` and `_`, all of them RFC 7636 unreserved characters.
pub open spec fn is_b64_url_char(c: char) -> bool {
    ('A' <= c && c <= 'Z') || ('a' <= c && c <= 'z') || ('0' <= c && c <= '9') || c == '-' || c
        == '_'
}

/// Whether every character of `s` is in the URL-safe base64 alphabet.
pub open spec fn all_b64_url(s: Seq<char>) -> bool {
    forall|i: int| 0 <= i < s.len() ==> is_b64_url_char(#[trigger] s[i])
}

/// The length of unpadded base64 follows from the input length alone.
pub proof fn lemma_b64_len(b: Seq<u8>)
    ensures
        b64_url_nopad(b).len() == b64_len(b.len()),
    decreases b.len(),
{
    if b.len() >= 3 {
        lemma_b64_len(b.skip(3));
    }
}

proof fn lemma_b64_char_in_alphabet(v: int)
    requires
        0 <= v < 64,
    ensures
        is_b64_url_char(b64_url_char(v)),
{
}

/// Every character of an unpadded URL-safe base64 encoding is in the
/// alphabet.
pub proof fn lemma_b64_alphabet(b: Seq<u8>)
    ensures
        all_b64_url(b64_url_nopad(b)),
    decreases b.len(),
{
    if b.len() == 0 {
        return;
    }
    let b0 = b[0] as int;
    lemma_b64_char_in_alphabet(b0 / 4);
    lemma_b64_char_in_alphabet((b0 % 4) * 16);
    if b.len() == 1 {
        return;
    }
    let b1 = b[1] as int;
    lemma_b64_char_in_alphabet((b0 % 4) * 16 + b1 / 16);
    lemma_b64_char_in_alphabet((b1 % 16) * 4);
    if b.len() == 2 {
        return;
    }
    let b2 = b[2] as int;
    lemma_b64_char_in_alphabet((b1 % 16) * 4 + b2 / 64);
    lemma_b64_char_in_alphabet(b2 % 64);
    lemma_b64_alphabet(b.skip(3));
    let s = b64_url_nopad(b);
    let tail = b64_url_nopad(b.skip(3));
    assert forall|i: int| 0 <= i < s.len() implies is_b64_url_char(#[trigger] s[i]) by {
        if i >= 4 {
            assert(s[i] == tail[i - 4]);
        }
    }
}

/// Derives the `S256` challenge for a verifier.
pub fn challenge_for(verifier: &str) -> (c: String)
    ensures
        c@ == s256_challenge(verifier@),
{
    let digest = sha256_digest(verifier.as_bytes());
    base64_url_encode(digest.as_slice())
}

/// Generates a fresh verifier/challenge pair.
///
/// The verifier is 43 characters of the URL-safe base64 alphabet, as
/// RFC 7636 §4.1 requires of 32 random octets, and the challenge is derived
/// from it.
pub fn generate() -> (p: Pkce)
    ensures
        exists|bytes: Seq<u8>| bytes.len() == VERIFIER_BYTES && p.verifier@ == b64_url_nopad(bytes),
        p.verifier@.len() == 43,
        all_b64_url(p.verifier@),
        p.challenge@ == s256_challenge(p.verifier@),
{
    let bytes = random_bytes(VERIFIER_BYTES);
    let verifier = base64_url_encode(bytes.as_slice());
    proof {
        lemma_b64_len(bytes@);
        lemma_b64_alphabet(bytes@);
    }
    let challenge = challenge_for(verifier.as_str());
    Pkce { verifier, challenge }
}

/// Lowercase hexadecimal encoding of a byte sequence.
pub fn hex_encode(bytes: &[u8]) -> (s: String)
    ensures
        s@ == hex_lower(bytes@),
        s@.len() == 2 * bytes@.len(),
{
    let mut out: Vec<char> = Vec::new();
    let mut i: usize = bytes.len();
    proof {
        assert(bytes@.skip(bytes@.len() as int) =~= Seq::<u8>::empty());
    }
    while i > 0
        invariant
            i <= bytes@.len(),
            out@ == hex_lower(bytes@.skip(i as int)),
            out@.len() == 2 * (bytes@.len() - i),
        decreases i,
    {
        let b = bytes[i - 1];
        let hi = b / 16;
        let lo = b % 16;
        let h: char = if hi < 10 {
            char_from_u8(48 + hi)
        } else {
            char_from_u8(87 + hi)
        };
        let l: char = if lo < 10 {
            char_from_u8(48 + lo)
        } else {
            char_from_u8(87 + lo)
        };
        let mut next: Vec<char> = Vec::new();
        next.push(h);
        next.push(l);
        let ghost head = next@;
        let mut k: usize = 0;
        while k < out.len()
            invariant
                k <= out@.len(),
                next@ == head + out@.take(k as int),
            decreases out@.len() - k,
        {
            next.push(out[k]);
            k = k + 1;
            assert(next@ =~= head + out@.take(k as int));
        }
        proof {
            assert(out@.take(out@.len() as int) =~= out@);
            assert(bytes@.skip(i - 1).drop_first() =~= bytes@.skip(i as int));
            assert(head == seq![hex_digit(b as int / 16), hex_digit(b as int % 16)]);
        }
        out = next;
        i = i - 1;
    }
    proof {
        assert(bytes@.skip(0) =~= bytes@);
    }
    string_from_chars(out.as_slice())
}

/// The ASCII character with code `b`.
fn char_from_u8(b: u8) -> (c: char)
    ensures
        c == b as char,
{
    b as char
}

/// Generates an opaque random `state` value for CSRF protection: 32
/// lowercase hexadecimal digits of 16 random bytes.
pub fn random_state() -> (s: String)
    ensures
        exists|bytes: Seq<u8>| bytes.len() == STATE_BYTES && s@ == hex_lower(bytes),
        s@.len() == 32,
{
    let bytes = random_bytes(STATE_BYTES);
    hex_encode(bytes.as_slice())
}

} // verus!
