//! Endpoint layout for OpenAI Codex authentication.
//!
//! The real deployment lives under a single authorization host. Keeping the
//! host injectable lets the same flow run against a local mock server.

use vstd::prelude::*;

use crate::text::{chars_of, string_from_chars, trim_end_char, trim_end_char_chars};

verus! {

/// Default OpenAI authorization host.
pub const DEFAULT_AUTH_BASE_URL: &'static str = "https://auth.openai.com";

/// Default local redirect the browser flow listens on.
pub const DEFAULT_REDIRECT_URI: &'static str = "http://localhost:1455/auth/callback";

/// Default address the local callback listener binds.
pub const DEFAULT_CALLBACK_BIND_ADDR: &'static str = "127.0.0.1:1455";

/// Path the provider redirects to after browser authorization.
pub const CALLBACK_PATH: &'static str = "/auth/callback";

/// OAuth client id the Codex CLI flow is registered under.
pub const CLIENT_ID: &'static str = "app_EMoamEEZ73f0CkXaXp7hrann";

/// Scopes requested during authorization.
pub const SCOPE: &'static str = "openid profile email offline_access";

/// Client identifier sent with authorization and model requests.
pub const ORIGINATOR: &'static str = "jinn";

/// URLs for one OpenAI Codex authorization deployment.
#[derive(Debug, Clone, PartialEq, Eq)]
pub struct CodexAuthEndpoints {
    /// Authorization host, without a trailing slash.
    pub auth_base_url: String,
    /// Redirect the browser flow registers with the provider.
    pub redirect_uri: String,
    /// Address the local callback listener binds.
    pub callback_bind_addr: String,
}

/// The authorization host with any trailing slashes removed.
pub open spec fn endpoint_base(e: CodexAuthEndpoints) -> Seq<char> {
    trim_end_char(e.auth_base_url@, '/')
}

impl Default for CodexAuthEndpoints {
    fn default() -> (e: CodexAuthEndpoints)
        ensures
            e.auth_base_url@ == DEFAULT_AUTH_BASE_URL@,
            e.redirect_uri@ == DEFAULT_REDIRECT_URI@,
            e.callback_bind_addr@ == DEFAULT_CALLBACK_BIND_ADDR@,
    {
        CodexAuthEndpoints {
            auth_base_url: DEFAULT_AUTH_BASE_URL.to_owned(),
            redirect_uri: DEFAULT_REDIRECT_URI.to_owned(),
            callback_bind_addr: DEFAULT_CALLBACK_BIND_ADDR.to_owned(),
        }
    }
}

impl CodexAuthEndpoints {
    /// Points every authorization URL at `auth_base_url`, leaving the local
    /// callback settings at their defaults.
    pub fn with_auth_base_url(auth_base_url: &str) -> (e: CodexAuthEndpoints)
        ensures
            e.auth_base_url@ == trim_end_char(auth_base_url@, '/'),
            e.redirect_uri@ == DEFAULT_REDIRECT_URI@,
            e.callback_bind_addr@ == DEFAULT_CALLBACK_BIND_ADDR@,
    {
        let cs = chars_of(auth_base_url);
        let trimmed = trim_end_char_chars(cs.as_slice(), '/');
        CodexAuthEndpoints {
            auth_base_url: string_from_chars(trimmed.as_slice()),
            redirect_uri: DEFAULT_REDIRECT_URI.to_owned(),
            callback_bind_addr: DEFAULT_CALLBACK_BIND_ADDR.to_owned(),
        }
    }

    /// The host followed by `path`.
    fn at(&self, path: &str) -> (url: String)
        ensures
            url@ == endpoint_base(*self) + path@,
    {
        let cs = chars_of(self.auth_base_url.as_str());
        let trimmed = trim_end_char_chars(cs.as_slice(), '/');
        let mut url = string_from_chars(trimmed.as_slice());
        url.append(path);
        url
    }

    /// Authorization page the user visits.
    pub fn authorize_url(&self) -> (url: String)
        ensures
            url@ == endpoint_base(*self) + "/oauth/authorize"@,
    {
        self.at("/oauth/authorize")
    }

    /// Token exchange and refresh endpoint.
    pub fn token_url(&self) -> (url: String)
        ensures
            url@ == endpoint_base(*self) + "/oauth/token"@,
    {
        self.at("/oauth/token")
    }

    /// Endpoint that mints a device user code.
    pub fn device_user_code_url(&self) -> (url: String)
        ensures
            url@ == endpoint_base(*self) + "/api/accounts/deviceauth/usercode"@,
    {
        self.at("/api/accounts/deviceauth/usercode")
    }

    /// Endpoint polled while waiting for device authorization.
    pub fn device_token_url(&self) -> (url: String)
        ensures
            url@ == endpoint_base(*self) + "/api/accounts/deviceauth/token"@,
    {
        self.at("/api/accounts/deviceauth/token")
    }

    /// Page where the user enters the device code.
    pub fn device_verification_uri(&self) -> (url: String)
        ensures
            url@ == endpoint_base(*self) + "/codex/device"@,
    {
        self.at("/codex/device")
    }

    /// Redirect the device flow exchanges its authorization code against.
    pub fn device_redirect_uri(&self) -> (url: String)
        ensures
            url@ == endpoint_base(*self) + "/deviceauth/callback"@,
    {
        self.at("/deviceauth/callback")
    }
}

/// Trimming trailing slashes is idempotent, so a host given with or without a
/// trailing slash yields the same URLs.
pub proof fn lemma_trim_end_char_idempotent(s: Seq<char>, c: char)
    ensures
        trim_end_char(trim_end_char(s, c), c) == trim_end_char(s, c),
        trim_end_char(s, c).len() == 0 || trim_end_char(s, c).last() != c,
    decreases s.len(),
{
    if s.len() > 0 && s.last() == c {
        lemma_trim_end_char_idempotent(s.drop_last(), c);
    }
}

/// `trim_end_char` only ever drops characters from the end.
pub proof fn lemma_trim_end_char_is_prefix(s: Seq<char>, c: char)
    ensures
        trim_end_char(s, c).len() <= s.len(),
        trim_end_char(s, c) == s.take(trim_end_char(s, c).len() as int),
    decreases s.len(),
{
    if s.len() > 0 && s.last() == c {
        lemma_trim_end_char_is_prefix(s.drop_last(), c);
        assert(s.drop_last().take(trim_end_char(s, c).len() as int) =~= s.take(
            trim_end_char(s, c).len() as int,
        ));
    } else {
        assert(s.take(s.len() as int) =~= s);
    }
}

} // verus!
