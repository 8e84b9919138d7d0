//! The conversation between a login flow and the user interface, and the
//! parts of it that do not depend on a terminal: the progress a flow reports,
//! how a browser is launched, and the scripted outcomes test doubles use.

use vstd::prelude::*;

use crate::credential::OAuthCredential;
use crate::failures::LoginFailure;

verus! {

/// Progress reported by a login flow while it runs.
///
/// Events carry no secrets: an authorization URL is safe to display, whereas
/// the authorization code and the resulting tokens never appear here.
#[derive(Debug, Clone, PartialEq, Eq)]
pub enum AuthEvent {
    /// Free-form progress text, e.g. "waiting for authorization".
    Progress {
        /// What the flow is currently doing.
        message: String,
    },
    /// The user should visit `url` to authorize. `instructions` explains what
    /// to expect (for example, that a browser was opened automatically).
    AuthorizationUrl {
        /// The authorization page to open.
        url: String,
        /// What the user should do next.
        instructions: String,
    },
    /// The user should visit `verification_uri` and enter `user_code`.
    DeviceCode {
        /// The page where the code is entered.
        verification_uri: String,
        /// The short code the user types.
        user_code: String,
    },
}

/// The operating system family, which decides how a URL is opened.
#[derive(Debug, Clone, Copy, PartialEq, Eq, Structural)]
pub enum Platform {
    /// macOS.
    MacOs,
    /// Windows.
    Windows,
    /// Anything else (Linux and the BSDs).
    Other,
}

/// Launches the platform's default URL handler.
#[derive(Debug, Clone, Copy, PartialEq, Eq, Default)]
pub struct SystemBrowserLauncher;

/// The program that opens URLs on `platform`.
pub open spec fn opener_program(platform: Platform) -> Seq<char> {
    match platform {
        Platform::MacOs => "open"@,
        Platform::Windows => "cmd"@,
        Platform::Other => "xdg-open"@,
    }
}

/// The arguments that come before the URL on `platform`.
pub open spec fn opener_leading_args(platform: Platform) -> Seq<Seq<char>> {
    match platform {
        Platform::MacOs => Seq::empty(),
        Platform::Windows => seq!["/C"@, "start"@, ""@],
        Platform::Other => Seq::empty(),
    }
}

impl SystemBrowserLauncher {
    /// Human-readable name for diagnostics.
    pub fn name(&self) -> (n: &'static str)
        ensures
            n@ == "system"@,
    {
        "system"
    }

    /// The command line that opens `url` on `platform`: the program, then
    /// its arguments with the URL last.
    pub fn command_for(&self, platform: Platform, url: &str) -> (r: (String, Vec<String>))
        ensures
            r.0@ == opener_program(platform),
            r.1@.len() == opener_leading_args(platform).len() + 1,
            forall|i: int|
                0 <= i < opener_leading_args(platform).len() ==> #[trigger] r.1@[i]@
                    == opener_leading_args(platform)[i],
            r.1@[opener_leading_args(platform).len() as int]@ == url@,
            platform == Platform::MacOs ==> r.0@ == "open"@ && r.1@.len() == 1,
            platform == Platform::Windows ==> r.0@ == "cmd"@ && r.1@.len() == 4,
            platform == Platform::Other ==> r.0@ == "xdg-open"@ && r.1@.len() == 1,
    {
        let mut args: Vec<String> = Vec::new();
        let program: &str = match platform {
            Platform::MacOs => "open",
            Platform::Windows => {
                args.push("/C".to_owned());
                args.push("start".to_owned());
                args.push("".to_owned());
                "cmd"
            },
            Platform::Other => "xdg-open",
        };
        args.push(url.to_owned());
        (program.to_owned(), args)
    }
}

/// Each platform opens URLs with its own program: `open` on macOS, `cmd /C
/// start ""` on Windows, and `xdg-open` elsewhere; only the other platforms
/// use `xdg-open`.
pub proof fn lemma_platform_openers(platform: Platform)
    ensures
        opener_program(Platform::MacOs) == "open"@,
        opener_leading_args(Platform::MacOs).len() == 0,
        opener_program(Platform::Windows) == "cmd"@,
        opener_leading_args(Platform::Windows) == seq!["/C"@, "start"@, ""@],
        opener_program(Platform::Other) == "xdg-open"@,
        opener_leading_args(Platform::Other).len() == 0,
        opener_program(platform) == "xdg-open"@ ==> platform == Platform::Other,
{
    reveal_strlit("open");
    reveal_strlit("cmd");
    reveal_strlit("xdg-open");
    assert("open"@.len() != "xdg-open"@.len());
    assert("cmd"@.len() != "xdg-open"@.len());
}

/// What a scripted provider does when asked to log in.
#[derive(Debug, Clone, Copy, PartialEq, Eq, Structural)]
pub enum FakeLoginOutcome {
    /// Return a credential.
    Succeeds,
    /// Report that the attempt was cancelled.
    Cancelled,
    /// Report that the provider refused the authorization.
    Denied,
    /// Report that the provider could not be reached.
    Unreachable,
    /// Never resolve, as a login waiting on the user does.
    Pending,
}

/// A credential valid for an hour from `now_ms`, carrying `access_token`.
pub open spec fn live_credential_spec(c: OAuthCredential, access_token: Seq<char>, now_ms: i64) -> bool {
    &&& c.access_token@ == access_token
    &&& c.refresh_token@ == "fake-refresh"@
    &&& c.expires_at_ms == now_ms + 3_600_000
    &&& c.account_id@ == "fake-account"@
}

/// Builds a credential that is valid for the hour after `now_ms`.
pub fn live_credential_at(access_token: &str, now_ms: i64) -> (c: OAuthCredential)
    requires
        now_ms <= i64::MAX - 3_600_000,
    ensures
        live_credential_spec(c, access_token@, now_ms),
{
    OAuthCredential {
        access_token: access_token.to_owned(),
        refresh_token: "fake-refresh".to_owned(),
        expires_at_ms: now_ms + 3_600_000,
        account_id: "fake-account".to_owned(),
    }
}

impl FakeLoginOutcome {
    /// What a scripted login returns at `now_ms`; `None` while it waits on the
    /// user, which lasts until the attempt is cancelled.
    pub fn login_result(self, access_token: &str, now_ms: i64) -> (r: Option<
        Result<OAuthCredential, LoginFailure>,
    >)
        requires
            now_ms <= i64::MAX - 3_600_000,
        ensures
            match self {
                FakeLoginOutcome::Succeeds => r matches Some(Ok(c)) && live_credential_spec(
                    c,
                    access_token@,
                    now_ms,
                ),
                FakeLoginOutcome::Cancelled => r == Some(
                    Err::<OAuthCredential, LoginFailure>(LoginFailure::Cancelled),
                ),
                FakeLoginOutcome::Denied => r == Some(
                    Err::<OAuthCredential, LoginFailure>(LoginFailure::Denied),
                ),
                FakeLoginOutcome::Unreachable => r == Some(
                    Err::<OAuthCredential, LoginFailure>(LoginFailure::Provider),
                ),
                FakeLoginOutcome::Pending => r is None,
            },
    {
        match self {
            FakeLoginOutcome::Succeeds => Some(Ok(live_credential_at(access_token, now_ms))),
            FakeLoginOutcome::Cancelled => Some(Err(LoginFailure::Cancelled)),
            FakeLoginOutcome::Denied => Some(Err(LoginFailure::Denied)),
            FakeLoginOutcome::Unreachable => Some(Err(LoginFailure::Provider)),
            FakeLoginOutcome::Pending => None,
        }
    }
}

} // verus!
