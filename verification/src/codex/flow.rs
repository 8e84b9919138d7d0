//! The protocol decisions of the OpenAI Codex login and refresh flows.
//!
//! Two login methods run against the ChatGPT authorization service: a browser
//! flow using OAuth with PKCE (completed through the local callback or a
//! pasted result), and a device-code flow for headless machines. The HTTP
//! exchanges themselves happen around these functions; what is sent, how each
//! reply is read, and what it means for the attempt is decided here.

use vstd::prelude::*;

use crate::codecs::{
    form_serialized, form_urlencoded_serialize, json_i64_at, json_i64_value_at, json_str_at,
    json_string_at, json_u64_at, json_u64_value_at, opt_string_view, pairs_view,
};
use crate::codex::account::{account_id_from_access_token, account_id_of};
use crate::codex::authorization_input::{parse, parsed_input};
use crate::codex::endpoints::{endpoint_base, CodexAuthEndpoints, CLIENT_ID, ORIGINATOR, SCOPE};
use crate::credential::{now_unix_ms, OAuthCredential};
use crate::failures::{LoginFailure, RefreshFailure};
use crate::login_method::LoginMethod;
use crate::oauth::callback::CallbackError;
use crate::oauth::device_code::{DeviceCodeFailure, DeviceCodePoll, DeviceCodeSchedule};
use crate::text::{chars_of, decimal, decimal_string, parse_decimal_u64, parsed_u64, trim, trim_chars};

verus! {

/// How long a device-code authorization stays valid, in milliseconds
/// (fifteen minutes).
pub const DEVICE_CODE_LIFETIME_MS: u64 = 900_000;

/// Login methods this provider supports, in presentation order.
pub const CODEX_METHODS: [LoginMethod; 2] = [LoginMethod::Browser, LoginMethod::DeviceCode];

/// Message used whenever a token response cannot be turned into a credential.
pub const TOKEN_FIELDS_MISSING: &'static str = "token response was missing required fields";

/// Message used when a completed device authorization lacks its code.
pub const DEVICE_TOKEN_FIELDS_MISSING: &'static str =
    "device token response was missing required fields";

/// Whether an HTTP status is a success (2xx).
pub open spec fn is_success_status(status: u16) -> bool {
    200 <= status && status <= 299
}

/// Whether an HTTP status is a success (2xx).
pub fn is_success(status: u16) -> (r: bool)
    ensures
        r == is_success_status(status),
{
    200 <= status && status <= 299
}

// ── Browser login ───────────────────────────────────────────────────────────

/// The query of the authorization URL, in the order it is sent.
pub open spec fn authorization_pairs(
    redirect_uri: Seq<char>,
    challenge: Seq<char>,
    state: Seq<char>,
) -> Seq<(Seq<char>, Seq<char>)> {
    seq![
        ("response_type"@, "code"@),
        ("client_id"@, CLIENT_ID@),
        ("redirect_uri"@, redirect_uri),
        ("scope"@, SCOPE@),
        ("code_challenge"@, challenge),
        ("code_challenge_method"@, "S256"@),
        ("state"@, state),
        ("id_token_add_organizations"@, "true"@),
        ("codex_cli_simplified_flow"@, "true"@),
        ("originator"@, ORIGINATOR@),
    ]
}

/// An owned name/value pair.
fn pair(name: &str, value: &str) -> (p: (String, String))
    ensures
        p.0@ == name@,
        p.1@ == value@,
{
    (name.to_owned(), value.to_owned())
}

/// Builds the authorization URL for a browser login.
pub fn authorization_url(endpoints: &CodexAuthEndpoints, challenge: &str, state: &str) -> (url:
    String)
    ensures
        url@ == endpoint_base(*endpoints) + "/oauth/authorize"@ + "?"@ + form_serialized(
            authorization_pairs(endpoints.redirect_uri@, challenge@, state@),
        ),
{
    let mut pairs: Vec<(String, String)> = Vec::new();
    pairs.push(pair("response_type", "code"));
    pairs.push(pair("client_id", CLIENT_ID));
    pairs.push(pair("redirect_uri", endpoints.redirect_uri.as_str()));
    pairs.push(pair("scope", SCOPE));
    pairs.push(pair("code_challenge", challenge));
    pairs.push(pair("code_challenge_method", "S256"));
    pairs.push(pair("state", state));
    pairs.push(pair("id_token_add_organizations", "true"));
    pairs.push(pair("codex_cli_simplified_flow", "true"));
    pairs.push(pair("originator", ORIGINATOR));
    proof {
        assert(pairs_view(pairs@) =~= authorization_pairs(
            endpoints.redirect_uri@,
            challenge@,
            state@,
        ));
    }
    let query = form_urlencoded_serialize(pairs.as_slice());
    let mut url = endpoints.authorize_url();
    url.append("?");
    url.append(query.as_str());
    url
}

/// What to tell the user once the authorization page is ready.
pub open spec fn browser_instructions_text(browser_opened: bool, callback_listening: bool) -> Seq<
    char,
> {
    (if browser_opened {
        "A browser window should have opened."@
    } else {
        "Open this URL in a browser to continue."@
    }) + " "@ + (if callback_listening {
        "jinn will detect the result automatically, or you can paste the authorization code or redirect URL below."@
    } else {
        "Paste the authorization code or redirect URL below when you are done."@
    })
}

/// What to tell the user once the authorization page is ready.
pub fn browser_instructions(browser_opened: bool, callback_listening: bool) -> (s: String)
    ensures
        s@ == browser_instructions_text(browser_opened, callback_listening),
{
    let opening: &str = if browser_opened {
        "A browser window should have opened."
    } else {
        "Open this URL in a browser to continue."
    };
    let completion: &str = if callback_listening {
        "jinn will detect the result automatically, or you can paste the authorization code or redirect URL below."
    } else {
        "Paste the authorization code or redirect URL below when you are done."
    };
    let mut s = opening.to_owned();
    s.append(" ");
    s.append(completion);
    s
}

/// The code a pasted result yields for an attempt expecting `expected_state`:
/// refused when it carries another state or no code at all.
pub open spec fn verified_code_of(pasted: Seq<char>, expected_state: Seq<char>) -> Option<
    Seq<char>,
> {
    let (code, state) = parsed_input(pasted);
    if state is Some && state->Some_0 != expected_state {
        None
    } else {
        code
    }
}

/// Validates pasted input against the expected `state` and returns its code.
pub fn verified_code(pasted: &str, expected_state: &str) -> (r: Result<String, LoginFailure>)
    ensures
        match r {
            Ok(code) => verified_code_of(pasted@, expected_state@) == Some(code@),
            Err(f) => f == LoginFailure::Provider && verified_code_of(pasted@, expected_state@)
                is None,
        },
{
    let parsed = parse(pasted);
    if let Some(state) = &parsed.state {
        if !crate::text::str_eq(state.as_str(), expected_state) {
            return Err(LoginFailure::Provider);
        }
    }
    match parsed.code {
        Some(code) => Ok(code),
        None => Err(LoginFailure::Provider),
    }
}

/// Maps a callback-listener failure onto a login failure: a cancelled wait
/// stays a cancellation, anything else is the provider's side failing.
pub fn map_callback_error(failure: CallbackError) -> (r: LoginFailure)
    ensures
        r == (if failure == CallbackError::Cancelled {
            LoginFailure::Cancelled
        } else {
            LoginFailure::Provider
        }),
{
    match failure {
        CallbackError::Cancelled => LoginFailure::Cancelled,
        _ => LoginFailure::Provider,
    }
}

/// The login failure a device-code loop failure becomes.
pub open spec fn device_failure_as_login(f: DeviceCodeFailure) -> LoginFailure {
    match f {
        DeviceCodeFailure::Denied => LoginFailure::Denied,
        DeviceCodeFailure::Expired => LoginFailure::TimedOut,
        DeviceCodeFailure::Cancelled => LoginFailure::Cancelled,
        DeviceCodeFailure::Provider(_) => LoginFailure::Provider,
    }
}

/// Maps a device-code loop failure onto a login failure.
pub fn login_failure_from_device_failure(failure: DeviceCodeFailure) -> (r: LoginFailure)
    ensures
        r == device_failure_as_login(failure),
{
    match failure {
        DeviceCodeFailure::Denied => LoginFailure::Denied,
        DeviceCodeFailure::Expired => LoginFailure::TimedOut,
        DeviceCodeFailure::Cancelled => LoginFailure::Cancelled,
        DeviceCodeFailure::Provider(_) => LoginFailure::Provider,
    }
}

// ── Device-code login ───────────────────────────────────────────────────────

/// A device authorization awaiting the user.
#[derive(Debug, Clone)]
pub struct DeviceAuthorization {
    /// Identifies the authorization when polling.
    pub device_auth_id: String,
    /// The code the user types at the verification page.
    pub user_code: String,
    /// The interval the provider asked for between polls, in seconds.
    pub interval_seconds: u64,
}

/// A completed device authorization.
#[derive(Debug, Clone)]
pub struct AuthorizedDeviceCode {
    /// The authorization code to exchange.
    pub authorization_code: String,
    /// The PKCE verifier the provider issued for the exchange.
    pub code_verifier: String,
}

/// The provider reports the poll interval as either a number or a string.
#[derive(Debug, Clone)]
pub enum IntervalField {
    /// A JSON number of seconds.
    Seconds(u64),
    /// A JSON string holding a number of seconds.
    Text(String),
}

/// The seconds an interval field stands for.
pub open spec fn interval_seconds_of(field: IntervalField) -> Option<u64> {
    match field {
        IntervalField::Seconds(n) => Some(n),
        IntervalField::Text(t) => parsed_u64(trim(t@)),
    }
}

impl IntervalField {
    /// The interval in seconds, when the field holds a number.
    pub fn as_seconds(&self) -> (r: Option<u64>)
        ensures
            r == interval_seconds_of(*self),
    {
        match self {
            IntervalField::Seconds(seconds) => Some(*seconds),
            IntervalField::Text(text) => {
                let cs = chars_of(text.as_str());
                let trimmed = trim_chars(cs.as_slice());
                parse_decimal_u64(trimmed.as_slice())
            },
        }
    }
}

/// The poll interval a device authorization response carries, in seconds.
pub open spec fn response_interval(body: Seq<u8>) -> Option<u64> {
    match json_u64_at(body, "/interval"@) {
        Some(n) => Some(n),
        None => match json_str_at(body, "/interval"@) {
            Some(t) => parsed_u64(trim(t)),
            None => None,
        },
    }
}

/// The authorization a device-code response describes: its id, user code and
/// interval, all present, the strings non-empty.
pub open spec fn device_authorization_of(body: Seq<u8>) -> Option<(Seq<char>, Seq<char>, u64)> {
    let id = json_str_at(body, "/device_auth_id"@);
    let code = json_str_at(body, "/user_code"@);
    let interval = response_interval(body);
    if id is Some && code is Some && interval is Some && id->Some_0.len() > 0
        && code->Some_0.len() > 0 {
        Some((id->Some_0, code->Some_0, interval->Some_0))
    } else {
        None
    }
}

/// Reads the poll interval out of a device authorization response.
fn interval_from(body: &[u8]) -> (r: Option<u64>)
    ensures
        r == response_interval(body@),
{
    match json_u64_value_at(body, "/interval") {
        Some(n) => Some(n),
        None => match json_string_at(body, "/interval") {
            Some(text) => IntervalField::Text(text).as_seconds(),
            None => None,
        },
    }
}

/// Reads the reply to a device user-code request: the authorization to show
/// the user, or a provider failure when the request failed or the reply is
/// unusable.
pub fn device_authorization_outcome(status: u16, body: &[u8]) -> (r: Result<
    DeviceAuthorization,
    LoginFailure,
>)
    ensures
        match r {
            Ok(d) => is_success_status(status) && device_authorization_of(body@) == Some(
                (d.device_auth_id@, d.user_code@, d.interval_seconds),
            ),
            Err(f) => f == LoginFailure::Provider && (!is_success_status(status)
                || device_authorization_of(body@) is None),
        },
{
    if !is_success(status) {
        return Err(LoginFailure::Provider);
    }
    let id = json_string_at(body, "/device_auth_id");
    let code = json_string_at(body, "/user_code");
    let interval = interval_from(body);
    match (id, code, interval) {
        (Some(device_auth_id), Some(user_code), Some(interval_seconds)) => {
            if device_auth_id.as_str().is_empty() || user_code.as_str().is_empty() {
                return Err(LoginFailure::Provider);
            }
            Ok(DeviceAuthorization { device_auth_id, user_code, interval_seconds })
        },
        _ => Err(LoginFailure::Provider),
    }
}

/// `n` seconds in milliseconds, saturating at `u64::MAX`.
pub open spec fn seconds_to_ms(n: u64) -> u64 {
    if n * 1000 > u64::MAX {
        u64::MAX
    } else {
        (n * 1000) as u64
    }
}

/// The polling schedule for a device authorization.
pub fn device_schedule(device: &DeviceAuthorization) -> (s: DeviceCodeSchedule)
    ensures
        s.interval_ms == seconds_to_ms(device.interval_seconds),
        s.expires_in_ms == DEVICE_CODE_LIFETIME_MS,
{
    let interval_ms = if device.interval_seconds <= u64::MAX / 1000 {
        device.interval_seconds * 1000
    } else {
        u64::MAX
    };
    DeviceCodeSchedule { interval_ms, expires_in_ms: DEVICE_CODE_LIFETIME_MS }
}

/// The error code of a device-authorization error body: `error` when it is a
/// string, else `error.code` when that is one.
pub open spec fn device_error_code_of(body: Seq<u8>) -> Option<Seq<char>> {
    match json_str_at(body, "/error"@) {
        Some(code) => Some(code),
        None => json_str_at(body, "/error/code"@),
    }
}

/// Pulls an error code out of a device-authorization error body, tolerating
/// both the string and object shapes the provider uses.
pub fn device_error_code(body: &[u8]) -> (r: Option<String>)
    ensures
        opt_string_view(r) == device_error_code_of(body@),
{
    match json_string_at(body, "/error") {
        Some(code) => Some(code),
        None => json_string_at(body, "/error/code"),
    }
}

/// The code and verifier of a successful device token response, both present
/// and non-empty.
pub open spec fn device_token_of(body: Seq<u8>) -> Option<(Seq<char>, Seq<char>)> {
    let code = json_str_at(body, "/authorization_code"@);
    let verifier = json_str_at(body, "/code_verifier"@);
    if code is Some && verifier is Some && code->Some_0.len() > 0 && verifier->Some_0.len() > 0 {
        Some((code->Some_0, verifier->Some_0))
    } else {
        None
    }
}

/// The message for a device poll rejected with `status`.
pub open spec fn device_http_failure_text(status: u16) -> Seq<char> {
    "device authorization failed with HTTP "@ + decimal(status as nat)
}

/// Whether an error code means the user has not finished yet.
pub open spec fn is_pending_code(code: Seq<char>) -> bool {
    code == "deviceauth_authorization_pending"@ || code == "authorization_pending"@
}

/// Reads one poll of the device token endpoint. The provider reports "not
/// authorized yet" as a plain 403/404 on this endpoint, and the RFC 8628
/// error codes otherwise.
pub fn device_poll_outcome(status: u16, body: &[u8]) -> (r: DeviceCodePoll<AuthorizedDeviceCode>)
    ensures
        match r {
            DeviceCodePoll::Complete(a) => is_success_status(status) && device_token_of(body@)
                == Some((a.authorization_code@, a.code_verifier@)),
            DeviceCodePoll::Pending => !is_success_status(status) && (status == 403 || status
                == 404 || (device_error_code_of(body@) is Some && is_pending_code(
                device_error_code_of(body@)->Some_0,
            ))),
            DeviceCodePoll::SlowDown { interval_seconds } => interval_seconds is None
                && !is_success_status(status) && status != 403 && status != 404
                && device_error_code_of(body@) == Some("slow_down"@),
            DeviceCodePoll::Failed(f) => match f {
                DeviceCodeFailure::Denied => !is_success_status(status) && status != 403 && status
                    != 404 && device_error_code_of(body@) == Some("access_denied"@),
                DeviceCodeFailure::Expired => !is_success_status(status) && status != 403 && status
                    != 404 && device_error_code_of(body@) == Some("expired_token"@),
                DeviceCodeFailure::Cancelled => false,
                DeviceCodeFailure::Provider(m) => if is_success_status(status) {
                    device_token_of(body@) is None && m@ == DEVICE_TOKEN_FIELDS_MISSING@
                } else {
                    &&& status != 403 && status != 404
                    &&& m@ == device_http_failure_text(status)
                    &&& match device_error_code_of(body@) {
                        Some(code) => !is_pending_code(code) && code != "slow_down"@ && code
                            != "access_denied"@ && code != "expired_token"@,
                        None => true,
                    }
                },
            },
        },
{
    if is_success(status) {
        let code = json_string_at(body, "/authorization_code");
        let verifier = json_string_at(body, "/code_verifier");
        if let (Some(authorization_code), Some(code_verifier)) = (code, verifier) {
            if !authorization_code.as_str().is_empty() && !code_verifier.as_str().is_empty() {
                return DeviceCodePoll::Complete(
                    AuthorizedDeviceCode { authorization_code, code_verifier },
                );
            }
        }
        return DeviceCodePoll::Failed(
            DeviceCodeFailure::Provider(DEVICE_TOKEN_FIELDS_MISSING.to_owned()),
        );
    }
    if status == 403 || status == 404 {
        return DeviceCodePoll::Pending;
    }
    let error = device_error_code(body);
    if let Some(code) = error {
        let c = code.as_str();
        if crate::text::str_eq(c, "deviceauth_authorization_pending") || crate::text::str_eq(
            c,
            "authorization_pending",
        ) {
            return DeviceCodePoll::Pending;
        }
        if crate::text::str_eq(c, "slow_down") {
            return DeviceCodePoll::SlowDown { interval_seconds: None };
        }
        if crate::text::str_eq(c, "access_denied") {
            return DeviceCodePoll::Failed(DeviceCodeFailure::Denied);
        }
        if crate::text::str_eq(c, "expired_token") {
            return DeviceCodePoll::Failed(DeviceCodeFailure::Expired);
        }
    }
    let mut message = "device authorization failed with HTTP ".to_owned();
    let digits = decimal_string(status as u64);
    message.append(digits.as_str());
    DeviceCodePoll::Failed(DeviceCodeFailure::Provider(message))
}

// ── Token exchange and refresh ──────────────────────────────────────────────

/// The fields of a token endpoint reply that jinn reads.
#[derive(Debug, Clone)]
pub struct TokenResponse {
    /// The new access token.
    pub access_token: Option<String>,
    /// The new refresh token.
    pub refresh_token: Option<String>,
    /// Lifetime of the access token, in seconds.
    pub expires_in: Option<i64>,
}

/// Whether a token reply can become a credential: it has an access token that
/// names an account, a non-empty refresh token and a positive lifetime.
pub open spec fn token_response_usable(t: TokenResponse) -> bool {
    &&& t.access_token is Some
    &&& account_id_of(t.access_token->Some_0@) is Some
    &&& t.refresh_token is Some
    &&& t.refresh_token->Some_0@.len() > 0
    &&& t.expires_in is Some
    &&& t.expires_in->Some_0 > 0
}

/// `v` clamped to the range of `i64`.
pub open spec fn clamp_i64(v: int) -> i64 {
    if v > i64::MAX {
        i64::MAX
    } else if v < i64::MIN {
        i64::MIN
    } else {
        v as i64
    }
}

/// When a token issued at `now_ms` with a lifetime of `expires_in` seconds
/// expires, with saturating arithmetic.
pub open spec fn expiry_after(now_ms: i64, expires_in: i64) -> i64 {
    clamp_i64(now_ms + clamp_i64(expires_in * 1000))
}

/// Whether `c` is the credential a usable reply `t` yields at `now_ms`.
pub open spec fn credential_from_reply(c: OAuthCredential, t: TokenResponse, now_ms: i64) -> bool {
    &&& c.access_token@ == t.access_token->Some_0@
    &&& c.refresh_token@ == t.refresh_token->Some_0@
    &&& c.expires_at_ms == expiry_after(now_ms, t.expires_in->Some_0)
    &&& c.account_id@ == account_id_of(t.access_token->Some_0@)->Some_0
}

/// The token reply fields a JSON document holds.
pub open spec fn token_response_fields(t: TokenResponse, body: Seq<u8>) -> bool {
    &&& opt_string_view(t.access_token) == json_str_at(body, "/access_token"@)
    &&& opt_string_view(t.refresh_token) == json_str_at(body, "/refresh_token"@)
    &&& t.expires_in == json_i64_at(body, "/expires_in"@)
}

impl TokenResponse {
    /// Reads the token reply fields out of a JSON body.
    pub fn from_json(body: &[u8]) -> (t: TokenResponse)
        ensures
            token_response_fields(t, body@),
    {
        TokenResponse {
            access_token: json_string_at(body, "/access_token"),
            refresh_token: json_string_at(body, "/refresh_token"),
            expires_in: json_i64_value_at(body, "/expires_in"),
        }
    }

    /// The credential this reply yields when received at `now_ms`.
    pub fn credential_at(self, now_ms: i64) -> (r: Option<OAuthCredential>)
        ensures
            match r {
                Some(c) => token_response_usable(self) && credential_from_reply(c, self, now_ms),
                None => !token_response_usable(self),
            },
    {
        let access_token = match self.access_token {
            Some(token) => token,
            None => return None,
        };
        let refresh_token = match self.refresh_token {
            Some(token) => token,
            None => return None,
        };
        if refresh_token.as_str().is_empty() {
            return None;
        }
        let expires_in = match self.expires_in {
            Some(seconds) => seconds,
            None => return None,
        };
        if expires_in <= 0 {
            return None;
        }
        let account_id = match account_id_from_access_token(access_token.as_str()) {
            Some(id) => id,
            None => return None,
        };
        let lifetime_ms: i64 = if expires_in <= i64::MAX / 1000 {
            expires_in * 1000
        } else {
            i64::MAX
        };
        let expires_at_ms: i64 = if now_ms <= i64::MAX - lifetime_ms {
            now_ms + lifetime_ms
        } else {
            i64::MAX
        };
        Some(OAuthCredential { access_token, refresh_token, expires_at_ms, account_id })
    }

    /// The credential this reply yields, timed from the current clock.
    pub fn into_credential(self) -> (r: Option<OAuthCredential>)
        ensures
            match r {
                Some(c) => token_response_usable(self) && exists|now_ms: i64|
                    credential_from_reply(c, self, now_ms),
                None => !token_response_usable(self),
            },
    {
        let now_ms = now_unix_ms();
        self.credential_at(now_ms)
    }
}

/// Whether `c` is a credential the token reply in `body` yields, at some
/// instant of receipt.
pub open spec fn reply_yields(body: Seq<u8>, c: OAuthCredential) -> bool {
    exists|t: TokenResponse, now_ms: i64|
        #![trigger credential_from_reply(c, t, now_ms)]
        token_response_fields(t, body) && token_response_usable(t) && credential_from_reply(
            c,
            t,
            now_ms,
        )
}

/// The form body of an authorization-code exchange.
pub open spec fn exchange_form_pairs(
    code: Seq<char>,
    verifier: Seq<char>,
    redirect_uri: Seq<char>,
) -> Seq<(Seq<char>, Seq<char>)> {
    seq![
        ("grant_type"@, "authorization_code"@),
        ("client_id"@, CLIENT_ID@),
        ("code"@, code),
        ("code_verifier"@, verifier),
        ("redirect_uri"@, redirect_uri),
    ]
}

/// Serializes the form body of an authorization-code exchange.
pub fn exchange_form(code: &str, verifier: &str, redirect_uri: &str) -> (s: String)
    ensures
        s@ == form_serialized(exchange_form_pairs(code@, verifier@, redirect_uri@)),
{
    let mut pairs: Vec<(String, String)> = Vec::new();
    pairs.push(pair("grant_type", "authorization_code"));
    pairs.push(pair("client_id", CLIENT_ID));
    pairs.push(pair("code", code));
    pairs.push(pair("code_verifier", verifier));
    pairs.push(pair("redirect_uri", redirect_uri));
    proof {
        assert(pairs_view(pairs@) =~= exchange_form_pairs(code@, verifier@, redirect_uri@));
    }
    form_urlencoded_serialize(pairs.as_slice())
}

/// The form body of a refresh.
pub open spec fn refresh_form_pairs(refresh_token: Seq<char>) -> Seq<(Seq<char>, Seq<char>)> {
    seq![
        ("grant_type"@, "refresh_token"@),
        ("client_id"@, CLIENT_ID@),
        ("refresh_token"@, refresh_token),
    ]
}

/// Serializes the form body of a refresh of `credential`.
pub fn refresh_form(credential: &OAuthCredential) -> (s: String)
    ensures
        s@ == form_serialized(refresh_form_pairs(credential.refresh_token@)),
{
    let mut pairs: Vec<(String, String)> = Vec::new();
    pairs.push(pair("grant_type", "refresh_token"));
    pairs.push(pair("client_id", CLIENT_ID));
    pairs.push(pair("refresh_token", credential.refresh_token.as_str()));
    proof {
        assert(pairs_view(pairs@) =~= refresh_form_pairs(credential.refresh_token@));
    }
    form_urlencoded_serialize(pairs.as_slice())
}

/// Reads the reply to an authorization-code exchange: a credential, or a
/// provider failure when the request failed or the reply is unusable.
pub fn exchange_outcome(status: u16, body: &[u8]) -> (r: Result<OAuthCredential, LoginFailure>)
    ensures
        match r {
            Ok(c) => is_success_status(status) && reply_yields(body@, c),
            Err(f) => f == LoginFailure::Provider && (!is_success_status(status) || forall|
                t: TokenResponse,
            | token_response_fields(t, body@) ==> !token_response_usable(t)),
        },
{
    if !is_success(status) {
        return Err(LoginFailure::Provider);
    }
    let reply = TokenResponse::from_json(body);
    let ghost t = reply;
    proof {
        lemma_token_usable_by_fields(t, body@);
    }
    match reply.into_credential() {
        Some(credential) => {
            proof {
                let now_ms = choose|now_ms: i64| credential_from_reply(credential, t, now_ms);
                assert(token_response_fields(t, body@) && token_response_usable(t)
                    && credential_from_reply(credential, t, now_ms));
                assert(reply_yields(body@, credential));
            }
            Ok(credential)
        },
        None => Err(LoginFailure::Provider),
    }
}

/// Whether a token reply is usable depends only on the fields a body holds.
proof fn lemma_token_usable_by_fields(t: TokenResponse, body: Seq<u8>)
    requires
        token_response_fields(t, body),
    ensures
        forall|u: TokenResponse|
            token_response_fields(u, body) ==> (token_response_usable(u) == token_response_usable(
                t,
            )),
{
    assert forall|u: TokenResponse| token_response_fields(u, body) implies (token_response_usable(
        u,
    ) == token_response_usable(t)) by {
        assert(opt_string_view(u.access_token) == opt_string_view(t.access_token));
        assert(opt_string_view(u.refresh_token) == opt_string_view(t.refresh_token));
    }
}

/// Whether a refresh reply with `status` means the refresh token was refused.
pub open spec fn refresh_rejected_status(status: u16) -> bool {
    status == 400 || status == 401 || status == 403
}

/// Reads the reply to a refresh: a fresh credential, `Rejected` when the
/// provider refused the refresh token, or `Provider` otherwise.
pub fn refresh_outcome(status: u16, body: &[u8]) -> (r: Result<OAuthCredential, RefreshFailure>)
    ensures
        match r {
            Ok(c) => is_success_status(status) && reply_yields(body@, c),
            Err(RefreshFailure::Rejected) => refresh_rejected_status(status),
            Err(RefreshFailure::Provider) => !refresh_rejected_status(status) && (
            !is_success_status(status) || forall|t: TokenResponse|
                token_response_fields(t, body@) ==> !token_response_usable(t)),
        },
{
    if status == 400 || status == 401 || status == 403 {
        return Err(RefreshFailure::Rejected);
    }
    match exchange_outcome(status, body) {
        Ok(credential) => Ok(credential),
        Err(_) => Err(RefreshFailure::Provider),
    }
}

/// The provider may send the poll interval as a JSON number: a reply whose
/// `interval` is a number `n` is read as an interval of `n` seconds, so a
/// user-code reply with a device id, a user code and a numeric interval
/// starts the authorization with exactly those values.
pub proof fn lemma_numeric_interval_is_read(
    body: Seq<u8>,
    id: Seq<char>,
    code: Seq<char>,
    n: u64,
)
    requires
        json_str_at(body, "/device_auth_id"@) == Some(id),
        json_str_at(body, "/user_code"@) == Some(code),
        id.len() > 0,
        code.len() > 0,
        json_u64_at(body, "/interval"@) == Some(n),
    ensures
        response_interval(body) == Some(n),
        device_authorization_of(body) == Some((id, code, n)),
{
}

} // verus!
