//! Why authentication operations do not complete, and how a failure at one
//! layer is reported at the next.

use vstd::prelude::*;

verus! {

/// Raised when a login attempt does not produce a credential.
#[derive(Debug, Clone, Copy, PartialEq, Eq, Structural)]
pub enum LoginFailure {
    /// The user (or the application) cancelled the attempt.
    Cancelled,
    /// The provider refused the authorization.
    Denied,
    /// The authorization window elapsed before the user finished.
    TimedOut,
    /// The provider could not be reached, or replied unusably.
    Provider,
}

/// Raised when a stored credential cannot be exchanged for a fresh one.
#[derive(Debug, Clone, Copy, PartialEq, Eq, Structural)]
pub enum RefreshFailure {
    /// The refresh token is no longer accepted; the user must log in again.
    Rejected,
    /// The provider could not be reached, or replied unusably.
    Provider,
}

/// Why an authentication operation did not complete.
#[derive(Debug, Clone, Copy, PartialEq, Eq, Structural)]
pub enum AuthOperationFailure {
    /// No adapter is registered for the requested provider.
    UnknownProvider,
    /// The attempt was cancelled before it finished.
    Cancelled,
    /// The provider refused the authorization.
    Denied,
    /// The authorization window elapsed before the user finished.
    TimedOut,
    /// The provider could not be reached, or replied unusably.
    Provider,
    /// Credentials could not be read or written.
    Storage,
}

/// Raised when no usable access token can be produced.
#[derive(Debug, Clone, Copy, PartialEq, Eq, Structural)]
pub enum AccessTokenError {
    /// No credential is stored for this provider; the user must log in.
    NotAuthenticated,
    /// A credential is stored but can no longer be refreshed.
    Expired,
    /// Credential storage could not be read or written.
    Storage,
    /// The provider could not be reached while refreshing.
    Provider,
}

/// Raised when credential storage cannot be read or written.
#[derive(Debug, Clone, Copy, PartialEq, Eq, Structural)]
pub struct CredentialStoreError;

/// Raised when an authentication attempt is cancelled.
#[derive(Debug, Clone, Copy, PartialEq, Eq, Structural)]
pub struct AuthCancelled;

/// Raised when the browser could not be launched.
#[derive(Debug, Clone, Copy, PartialEq, Eq, Structural)]
pub struct BrowserLaunchError;

/// The shared operation failure a provider-level login failure becomes.
pub open spec fn login_failure_as_operation(f: LoginFailure) -> AuthOperationFailure {
    match f {
        LoginFailure::Cancelled => AuthOperationFailure::Cancelled,
        LoginFailure::Denied => AuthOperationFailure::Denied,
        LoginFailure::TimedOut => AuthOperationFailure::TimedOut,
        LoginFailure::Provider => AuthOperationFailure::Provider,
    }
}

/// The access-token error a refresh failure becomes.
pub open spec fn refresh_failure_as_token_error(f: RefreshFailure) -> AccessTokenError {
    match f {
        RefreshFailure::Rejected => AccessTokenError::Expired,
        RefreshFailure::Provider => AccessTokenError::Provider,
    }
}

/// The text the modal shows for a failed operation.
pub open spec fn failure_description(f: AuthOperationFailure) -> Seq<char> {
    match f {
        AuthOperationFailure::Cancelled => "Login was cancelled."@,
        AuthOperationFailure::Denied => "Authorization was denied."@,
        AuthOperationFailure::TimedOut => "Authorization timed out."@,
        AuthOperationFailure::Storage => "Credentials could not be saved."@,
        AuthOperationFailure::UnknownProvider => "That provider is not supported."@,
        AuthOperationFailure::Provider => "The provider could not be reached."@,
    }
}

/// Maps a provider-level login failure onto the shared operation failure.
pub fn map_login_failure(f: LoginFailure) -> (r: AuthOperationFailure)
    ensures
        r == login_failure_as_operation(f),
{
    match f {
        LoginFailure::Cancelled => AuthOperationFailure::Cancelled,
        LoginFailure::Denied => AuthOperationFailure::Denied,
        LoginFailure::TimedOut => AuthOperationFailure::TimedOut,
        LoginFailure::Provider => AuthOperationFailure::Provider,
    }
}

/// Maps a refresh failure onto the reason the request cannot proceed.
///
/// Only a rejected refresh token means the user must log in again; a provider
/// that cannot be reached is reported as such.
pub fn map_refresh_failure(f: RefreshFailure) -> (r: AccessTokenError)
    ensures
        r == refresh_failure_as_token_error(f),
{
    match f {
        RefreshFailure::Rejected => AccessTokenError::Expired,
        RefreshFailure::Provider => AccessTokenError::Provider,
    }
}

/// Turns a failed operation into text for the modal.
pub fn describe_failure(f: AuthOperationFailure) -> (s: String)
    ensures
        s@ == failure_description(f),
{
    let text: &str = match f {
        AuthOperationFailure::Cancelled => "Login was cancelled.",
        AuthOperationFailure::Denied => "Authorization was denied.",
        AuthOperationFailure::TimedOut => "Authorization timed out.",
        AuthOperationFailure::Storage => "Credentials could not be saved.",
        AuthOperationFailure::UnknownProvider => "That provider is not supported.",
        AuthOperationFailure::Provider => "The provider could not be reached.",
    };
    text.to_owned()
}

impl LoginFailure {
    /// What went wrong, for diagnostics.
    pub fn message(&self) -> (m: &'static str)
        ensures
            m@ == (match *self {
                LoginFailure::Cancelled => "login cancelled"@,
                LoginFailure::Denied => "authorization was denied"@,
                LoginFailure::TimedOut => "authorization timed out"@,
                LoginFailure::Provider => "provider error"@,
            }),
    {
        match self {
            LoginFailure::Cancelled => "login cancelled",
            LoginFailure::Denied => "authorization was denied",
            LoginFailure::TimedOut => "authorization timed out",
            LoginFailure::Provider => "provider error",
        }
    }
}

impl AccessTokenError {
    /// What went wrong, for diagnostics.
    pub fn message(&self) -> (m: &'static str)
        ensures
            m@ == (match *self {
                AccessTokenError::NotAuthenticated => "not logged in"@,
                AccessTokenError::Expired => "stored credentials are no longer valid"@,
                AccessTokenError::Storage => "credential storage failure"@,
                AccessTokenError::Provider => "provider error"@,
            }),
    {
        match self {
            AccessTokenError::NotAuthenticated => "not logged in",
            AccessTokenError::Expired => "stored credentials are no longer valid",
            AccessTokenError::Storage => "credential storage failure",
            AccessTokenError::Provider => "provider error",
        }
    }
}

/// Cancellation at the provider stays cancellation for the user, and a
/// provider's refusal or time-out is never reported as a cancellation.
pub proof fn lemma_login_failure_mapping_is_faithful(f: LoginFailure)
    ensures
        login_failure_as_operation(f) == AuthOperationFailure::Cancelled <==> f
            == LoginFailure::Cancelled,
        login_failure_as_operation(f) != AuthOperationFailure::Storage,
        login_failure_as_operation(f) != AuthOperationFailure::UnknownProvider,
{
}

} // verus!
