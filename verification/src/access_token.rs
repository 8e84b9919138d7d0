//! Turning a stored credential into a usable bearer token.
//!
//! Every subscription request goes through here. A live token is handed back
//! as-is; an expired one is refreshed, persisted, and then handed back. The
//! refresh runs under an exclusive storage lock and re-reads storage after
//! taking it, so concurrent requests produce at most one refresh.
//!
//! When a credential can no longer be refreshed, the request fails. The stored
//! credential is left alone: logging back in is an explicit user action, never
//! something a failing request triggers.
//!
//! Reading storage and calling the provider happen around these functions;
//! each step of the decision is made here.

use vstd::prelude::*;

use crate::credential::{expired_at, now_unix_ms, stored_oauth, OAuthCredential, StoredCredential};
use crate::credential_store::CredentialDocument;
use crate::failures::{
    map_refresh_failure, refresh_failure_as_token_error, AccessTokenError, CredentialStoreError,
    RefreshFailure,
};
use crate::provider_id::{provider_wire_id, AuthProviderId};

verus! {

/// A bearer token plus the account it belongs to.
#[derive(Clone, PartialEq, Eq)]
pub struct AccessToken {
    /// Bearer token for the `Authorization` header.
    pub token: String,
    /// Upstream account identifier the request must be attributed to.
    pub account_id: String,
}

/// Whether `t` is the request-time token of credential `c`.
pub open spec fn token_of(t: AccessToken, c: OAuthCredential) -> bool {
    t.token@ == c.access_token@ && t.account_id@ == c.account_id@
}

/// Projects a credential onto the request-time token pair.
pub fn token_from(credential: &OAuthCredential) -> (t: AccessToken)
    ensures
        token_of(t, *credential),
{
    AccessToken {
        token: credential.access_token.clone(),
        account_id: credential.account_id.clone(),
    }
}

/// What a request does with the credential it found.
pub enum TokenPlan {
    /// The credential is live: send this token.
    Ready(AccessToken),
    /// The credential needs refreshing first.
    Refresh(OAuthCredential),
}

/// Decides what a storage read means for a request made at `now_ms`: a live
/// credential is used as-is, an expired one must be refreshed, a missing one
/// means the user is not logged in.
pub fn plan_access_token_at(
    stored: Result<Option<StoredCredential>, CredentialStoreError>,
    now_ms: i64,
) -> (r: Result<TokenPlan, AccessTokenError>)
    ensures
        match stored {
            Err(_) => r == Err::<TokenPlan, AccessTokenError>(AccessTokenError::Storage),
            Ok(None) => r == Err::<TokenPlan, AccessTokenError>(AccessTokenError::NotAuthenticated),
            Ok(Some(s)) => if expired_at(stored_oauth(s).expires_at_ms, now_ms) {
                r == Ok::<TokenPlan, AccessTokenError>(TokenPlan::Refresh(stored_oauth(s)))
            } else {
                r matches Ok(TokenPlan::Ready(t)) && token_of(t, stored_oauth(s))
            },
        },
{
    let stored = match stored {
        Ok(stored) => stored,
        Err(_) => return Err(AccessTokenError::Storage),
    };
    let credential = match stored {
        Some(StoredCredential::Oauth(credential)) => credential,
        None => return Err(AccessTokenError::NotAuthenticated),
    };
    if !credential.is_expired_at(now_ms) {
        return Ok(TokenPlan::Ready(token_from(&credential)));
    }
    Ok(TokenPlan::Refresh(credential))
}

/// [`plan_access_token_at`] against the current clock.
pub fn plan_access_token(stored: Result<Option<StoredCredential>, CredentialStoreError>) -> (r:
    Result<TokenPlan, AccessTokenError>)
    ensures
        match stored {
            Err(_) => r == Err::<TokenPlan, AccessTokenError>(AccessTokenError::Storage),
            Ok(None) => r == Err::<TokenPlan, AccessTokenError>(AccessTokenError::NotAuthenticated),
            Ok(Some(s)) => exists|now_ms: i64|
                if expired_at(stored_oauth(s).expires_at_ms, now_ms) {
                    r == Ok::<TokenPlan, AccessTokenError>(TokenPlan::Refresh(stored_oauth(s)))
                } else {
                    r matches Ok(TokenPlan::Ready(t)) && token_of(t, stored_oauth(s))
                },
        },
{
    let now_ms = now_unix_ms();
    plan_access_token_at(stored, now_ms)
}

/// What planning against a stored document gives: not authenticated when
/// nothing is stored for `provider`; otherwise the stored token while it is
/// live, or a refresh of the stored credential once it has expired.
pub open spec fn plan_from(
    stored: Map<Seq<char>, StoredCredential>,
    provider: AuthProviderId,
    now_ms: i64,
    r: Result<TokenPlan, AccessTokenError>,
) -> bool {
    if !stored.dom().contains(provider_wire_id(provider)) {
        r == Err::<TokenPlan, AccessTokenError>(AccessTokenError::NotAuthenticated)
    } else {
        let c = stored_oauth(stored[provider_wire_id(provider)]);
        if expired_at(c.expires_at_ms, now_ms) {
            r == Ok::<TokenPlan, AccessTokenError>(TokenPlan::Refresh(c))
        } else {
            r matches Ok(TokenPlan::Ready(t)) && token_of(t, c)
        }
    }
}

/// The second look, under the storage lock: another request may have
/// refreshed meanwhile, so the locked document is read again.
pub fn plan_locked_at(document: &CredentialDocument, provider: AuthProviderId, now_ms: i64) -> (r:
    Result<TokenPlan, AccessTokenError>)
    requires
        document.wf(),
    ensures
        plan_from(document@, provider, now_ms, r),
{
    plan_access_token_at(Ok(document.read_provider(provider)), now_ms)
}

/// Settles a refresh. `refreshed` is `None` when the provider did not answer
/// in time. Only a successful refresh is persisted; any failure leaves the
/// stored credential as it was.
pub fn complete_refresh(
    document: &mut CredentialDocument,
    provider: AuthProviderId,
    refreshed: Option<Result<OAuthCredential, RefreshFailure>>,
) -> (r: Result<AccessToken, AccessTokenError>)
    requires
        old(document).wf(),
    ensures
        final(document).wf(),
        match refreshed {
            None => r == Err::<AccessToken, AccessTokenError>(AccessTokenError::Provider)
                && final(document)@ == old(document)@,
            Some(Err(f)) => r == Err::<AccessToken, AccessTokenError>(
                refresh_failure_as_token_error(f),
            ) && final(document)@ == old(document)@,
            Some(Ok(c)) => (r matches Ok(t) && token_of(t, c)) && final(document)@ == old(document)@.insert(provider_wire_id(provider), StoredCredential::Oauth(c)),
        },
{
    let refreshed = match refreshed {
        Some(result) => result,
        None => return Err(AccessTokenError::Provider),
    };
    match refreshed {
        Ok(credential) => {
            let token = token_from(&credential);
            document.write_provider(provider, StoredCredential::Oauth(credential));
            Ok(token)
        },
        Err(failure) => Err(map_refresh_failure(failure)),
    }
}

/// A request that waited on the lock while another refreshed uses the
/// refreshed token: once a refresh has stored a credential that is live, the
/// next plan for that provider is that credential's token, with no second
/// refresh.
pub proof fn lemma_refreshed_credential_is_used(
    stored: Map<Seq<char>, StoredCredential>,
    provider: AuthProviderId,
    c: OAuthCredential,
    now_ms: i64,
    r: Result<TokenPlan, AccessTokenError>,
)
    requires
        !expired_at(c.expires_at_ms, now_ms),
        plan_from(stored.insert(provider_wire_id(provider), StoredCredential::Oauth(c)), provider, now_ms, r),
    ensures
        r matches Ok(TokenPlan::Ready(t)) && token_of(t, c),
{
    let m = stored.insert(provider_wire_id(provider), StoredCredential::Oauth(c));
    assert(m.dom().contains(provider_wire_id(provider)));
    assert(stored_oauth(m[provider_wire_id(provider)]) == c);
}

} // verus!
