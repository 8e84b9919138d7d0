//! Stored credential shapes.
//!
//! A credential is what jinn keeps after a successful login: the tokens needed
//! to make subscription-backed requests, plus the account the upstream protocol
//! requires. Credentials are secrets, so these types carry no `Debug`.

use vstd::prelude::*;

verus! {

/// How long before nominal expiry a token is treated as already expired, in
/// milliseconds (five minutes).
pub const EXPIRY_SKEW_MS: i64 = 300_000;

/// An OAuth credential for a subscription provider.
///
/// `expires_at_ms` is the absolute expiry of `access_token` in Unix
/// milliseconds.
#[derive(Clone, PartialEq, Eq)]
pub struct OAuthCredential {
    /// Short-lived bearer token sent with each model request.
    pub access_token: String,
    /// Long-lived token used to mint a fresh `access_token`.
    pub refresh_token: String,
    /// Absolute expiry of `access_token`, in Unix milliseconds.
    pub expires_at_ms: i64,
    /// Upstream account identifier extracted from the access token.
    pub account_id: String,
}

/// `a - b` clamped to the range of `i64`, as `i64::saturating_sub` computes it.
pub open spec fn saturating_sub_i64(a: int, b: int) -> int {
    if a - b < i64::MIN {
        i64::MIN as int
    } else if a - b > i64::MAX {
        i64::MAX as int
    } else {
        a - b
    }
}

/// Whether a token expiring at `expires_at_ms` must be refreshed at `now_ms`.
pub open spec fn expired_at(expires_at_ms: i64, now_ms: i64) -> bool {
    saturating_sub_i64(expires_at_ms as int, EXPIRY_SKEW_MS as int) <= now_ms
}

/// The current time in Unix milliseconds (`jiff::Timestamp::now` followed by
/// `as_millisecond`). Nothing is promised of the value: it is the clock.
#[verifier::external_body]
pub(crate) fn now_unix_ms() -> i64 {
    jiff::Timestamp::now().as_millisecond()
}

impl OAuthCredential {
    /// Whether the access token is expired, or close enough to expiry that it
    /// should be refreshed before the next request.
    pub fn is_expired_at(&self, now_ms: i64) -> (r: bool)
        ensures
            r == expired_at(self.expires_at_ms, now_ms),
    {
        let threshold: i64 = if self.expires_at_ms < i64::MIN + EXPIRY_SKEW_MS {
            i64::MIN
        } else {
            self.expires_at_ms - EXPIRY_SKEW_MS
        };
        threshold <= now_ms
    }

    /// Whether the access token is expired as of now.
    pub fn is_expired(&self) -> (r: bool)
        ensures
            exists|now_ms: i64| r == expired_at(self.expires_at_ms, now_ms),
    {
        let now = now_unix_ms();
        self.is_expired_at(now)
    }
}

/// A credential as persisted, tagged by kind.
#[derive(Clone, PartialEq, Eq)]
pub enum StoredCredential {
    /// An OAuth credential obtained through a subscription login.
    Oauth(OAuthCredential),
}

/// The OAuth payload of a stored credential.
pub open spec fn stored_oauth(s: StoredCredential) -> OAuthCredential {
    match s {
        StoredCredential::Oauth(c) => c,
    }
}

impl StoredCredential {
    /// Borrows the OAuth payload.
    pub fn as_oauth(&self) -> (c: &OAuthCredential)
        ensures
            *c == stored_oauth(*self),
    {
        match self {
            StoredCredential::Oauth(credential) => credential,
        }
    }
}

/// Expiry is monotone in time: once a credential needs refreshing it keeps
/// needing it, and a credential live at some instant was live at every earlier
/// one.
pub proof fn lemma_expiry_is_monotone(expires_at_ms: i64, t1: i64, t2: i64)
    requires
        t1 <= t2,
    ensures
        expired_at(expires_at_ms, t1) ==> expired_at(expires_at_ms, t2),
        !expired_at(expires_at_ms, t2) ==> !expired_at(expires_at_ms, t1),
{
}

/// A token is live exactly while more than the skew window remains before its
/// nominal expiry.
pub proof fn lemma_live_means_skew_remaining(expires_at_ms: i64, now_ms: i64)
    requires
        expires_at_ms >= i64::MIN + EXPIRY_SKEW_MS,
    ensures
        !expired_at(expires_at_ms, now_ms) <==> expires_at_ms - now_ms > EXPIRY_SKEW_MS,
{
}

} // verus!
