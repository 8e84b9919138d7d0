//! Identity of a built-in subscription authentication provider.
//!
//! A subscription provider is an account the user already pays for that jinn
//! can authenticate against instead of asking for a separately billed API key.
//! Each provider has a stable wire id used as the credential-storage key.

use vstd::prelude::*;

use crate::text::{chars_eq, chars_of, string_from_chars};

verus! {

/// Wire id for the OpenAI Codex (ChatGPT subscription) provider.
pub const OPENAI_CODEX_ID: &'static str = "openai-codex";

/// Raised when a stored id does not name a built-in subscription provider.
#[derive(Debug, Clone, Copy, PartialEq, Eq, Structural)]
pub struct UnknownAuthProviderId;

impl UnknownAuthProviderId {
    /// What went wrong, for diagnostics.
    pub fn message(&self) -> (m: &'static str)
        ensures
            m@ == "unknown subscription auth provider"@,
    {
        "unknown subscription auth provider"
    }
}

/// A built-in subscription authentication provider.
///
/// The enum is closed on purpose: subscription support ships with jinn rather
/// than being loaded from user configuration.
#[derive(Debug, Clone, Copy, PartialEq, Eq, Hash, PartialOrd, Ord, Structural)]
pub enum AuthProviderId {
    /// OpenAI Codex, backed by a ChatGPT subscription.
    OpenAiCodex,
}

/// The stable wire id of a provider.
pub open spec fn provider_wire_id(p: AuthProviderId) -> Seq<char> {
    match p {
        AuthProviderId::OpenAiCodex => "openai-codex"@,
    }
}

/// The provider a wire id names, if any.
pub open spec fn provider_for_wire_id(s: Seq<char>) -> Option<AuthProviderId> {
    if s == "openai-codex"@ {
        Some(AuthProviderId::OpenAiCodex)
    } else {
        None
    }
}

/// The name shown in the login and logout pickers.
pub open spec fn provider_display_name(p: AuthProviderId) -> Seq<char> {
    match p {
        AuthProviderId::OpenAiCodex => "OpenAI Codex"@,
    }
}

impl AuthProviderId {
    /// Every provider, in the order the login picker lists them.
    pub const ALL: [AuthProviderId; 1] = [AuthProviderId::OpenAiCodex];

    /// Stable wire id, used as the credential-storage key.
    pub fn as_str(self) -> (s: &'static str)
        ensures
            s@ == provider_wire_id(self),
    {
        match self {
            AuthProviderId::OpenAiCodex => OPENAI_CODEX_ID,
        }
    }

    /// Human-readable name shown in the login and logout pickers.
    pub fn display_name(self) -> (s: &'static str)
        ensures
            s@ == provider_display_name(self),
    {
        match self {
            AuthProviderId::OpenAiCodex => "OpenAI Codex",
        }
    }

    /// Short description of which account backs this provider.
    pub fn account_description(self) -> (s: &'static str)
        ensures
            s@ == (match self {
                AuthProviderId::OpenAiCodex => "ChatGPT Plus/Pro subscription"@,
            }),
    {
        match self {
            AuthProviderId::OpenAiCodex => "ChatGPT Plus/Pro subscription",
        }
    }

    /// The wire id as an owned string (what `Display` prints).
    pub fn to_string(&self) -> (s: String)
        ensures
            s@ == provider_wire_id(*self),
    {
        let cs = chars_of(self.as_str());
        string_from_chars(cs.as_slice())
    }

    /// Parses a wire id.
    pub fn from_wire_id(s: &str) -> (r: Result<AuthProviderId, UnknownAuthProviderId>)
        ensures
            match provider_for_wire_id(s@) {
                Some(p) => r == Ok::<AuthProviderId, UnknownAuthProviderId>(p),
                None => r is Err,
            },
    {
        let given = chars_of(s);
        let known = chars_of(OPENAI_CODEX_ID);
        if chars_eq(given.as_slice(), known.as_slice()) {
            Ok(AuthProviderId::OpenAiCodex)
        } else {
            Err(UnknownAuthProviderId)
        }
    }
}

impl std::str::FromStr for AuthProviderId {
    type Err = UnknownAuthProviderId;

    fn from_str(s: &str) -> (r: Result<AuthProviderId, UnknownAuthProviderId>)
        ensures
            match provider_for_wire_id(s@) {
                Some(p) => r == Ok::<AuthProviderId, UnknownAuthProviderId>(p),
                None => r is Err,
            },
    {
        AuthProviderId::from_wire_id(s)
    }
}

/// Parsing a provider's wire id gives the provider back, and distinct
/// providers have distinct wire ids.
pub proof fn lemma_wire_id_round_trip(p: AuthProviderId, q: AuthProviderId)
    ensures
        provider_for_wire_id(provider_wire_id(p)) == Some(p),
        provider_wire_id(p) == provider_wire_id(q) ==> p == q,
{
}

} // verus!
