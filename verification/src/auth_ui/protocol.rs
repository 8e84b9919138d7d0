//! Authentication commands and events.
//!
//! Commands carry user decisions from the synchronous intent layer to the
//! auth actor, which owns every external and asynchronous part of
//! authentication. Events describe what happened to an attempt; they never
//! carry authorization codes or tokens.

use vstd::prelude::*;

use crate::auth_ui::state::AuthPhase;
use crate::login_method::LoginMethod;
use crate::provider_id::AuthProviderId;

verus! {

/// Load the providers the login picker should list.
#[derive(Debug, Clone, Copy, PartialEq, Eq, Structural)]
pub struct LoadLoginPickerEntries;

/// Load the providers the logout picker should list. Only providers with
/// stored credentials appear.
#[derive(Debug, Clone, Copy, PartialEq, Eq, Structural)]
pub struct LoadLogoutPickerEntries;

/// Begin authenticating `provider` using `method`. Replaces any attempt
/// already running; the previous one is cancelled and its result ignored.
#[derive(Debug, Clone, Copy, PartialEq, Eq, Structural)]
pub struct StartLogin {
    /// The provider to authenticate against.
    pub provider: AuthProviderId,
    /// The login method the user chose.
    pub method: LoginMethod,
}

/// Abandon the active attempt.
#[derive(Debug, Clone, Copy, PartialEq, Eq, Structural)]
pub struct CancelLogin;

/// Hand the active attempt an authorization code the user pasted: a bare
/// code, a `code#state` pair, a query fragment, or the whole redirect URL.
#[derive(Debug, Clone, PartialEq, Eq)]
pub struct SubmitAuthorizationCode {
    /// What the user pasted.
    pub input: String,
}

/// Remove `provider`'s stored credentials.
#[derive(Debug, Clone, Copy, PartialEq, Eq, Structural)]
pub struct Logout {
    /// The provider to log out of.
    pub provider: AuthProviderId,
}

/// The active attempt reported progress; `attempt` identifies which attempt
/// reported it, so a report from a cancelled or superseded attempt can be
/// discarded.
#[derive(Debug, Clone)]
pub struct AuthProgressReported {
    /// Which attempt this report belongs to.
    pub attempt: u64,
    /// What the modal should now show.
    pub phase: AuthPhase,
}

/// An attempt finished, successfully or not.
#[derive(Debug, Clone)]
pub struct LoginAttemptFinished {
    /// Which attempt finished.
    pub attempt: u64,
    /// The provider that was being authenticated.
    pub provider: AuthProviderId,
    /// The method that was used.
    pub method: LoginMethod,
    /// `None` on success; the reason to show the user on failure.
    pub failure: Option<String>,
}

/// Stored credentials changed: a provider was logged in or out.
#[derive(Debug, Clone, Copy, PartialEq, Eq, Structural)]
pub struct SubscriptionCredentialsChanged {
    /// The provider whose credentials changed.
    pub provider: AuthProviderId,
    /// Whether credentials are now stored for it.
    pub is_configured: bool,
}

/// A command an intent hands to the auth actor.
#[derive(Debug, Clone)]
pub enum AuthCommand {
    /// See [`LoadLoginPickerEntries`].
    LoadLoginPickerEntries(LoadLoginPickerEntries),
    /// See [`LoadLogoutPickerEntries`].
    LoadLogoutPickerEntries(LoadLogoutPickerEntries),
    /// See [`StartLogin`].
    StartLogin(StartLogin),
    /// See [`CancelLogin`].
    CancelLogin(CancelLogin),
    /// See [`SubmitAuthorizationCode`].
    SubmitAuthorizationCode(SubmitAuthorizationCode),
    /// See [`Logout`].
    Logout(Logout),
}

/// The message name of a command.
pub open spec fn command_name(c: AuthCommand) -> Seq<char> {
    match c {
        AuthCommand::LoadLoginPickerEntries(_) => "LoadLoginPickerEntries"@,
        AuthCommand::LoadLogoutPickerEntries(_) => "LoadLogoutPickerEntries"@,
        AuthCommand::StartLogin(_) => "StartLogin"@,
        AuthCommand::CancelLogin(_) => "CancelLogin"@,
        AuthCommand::SubmitAuthorizationCode(_) => "SubmitAuthorizationCode"@,
        AuthCommand::Logout(_) => "Logout"@,
    }
}

impl AuthCommand {
    /// The command's message name.
    pub fn name(&self) -> (s: &'static str)
        ensures
            s@ == command_name(*self),
    {
        match self {
            AuthCommand::LoadLoginPickerEntries(_) => "LoadLoginPickerEntries",
            AuthCommand::LoadLogoutPickerEntries(_) => "LoadLogoutPickerEntries",
            AuthCommand::StartLogin(_) => "StartLogin",
            AuthCommand::CancelLogin(_) => "CancelLogin",
            AuthCommand::SubmitAuthorizationCode(_) => "SubmitAuthorizationCode",
            AuthCommand::Logout(_) => "Logout",
        }
    }
}

/// What an intent asks of the rest of the application.
#[derive(Debug, Clone)]
pub struct IntentResult {
    /// The commands to publish, in order.
    pub commands: Vec<AuthCommand>,
}

impl IntentResult {
    /// Nothing to publish.
    pub fn empty() -> (r: IntentResult)
        ensures
            r.commands@.len() == 0,
    {
        IntentResult { commands: Vec::new() }
    }

    /// Publish exactly `command`.
    pub fn new_message(command: AuthCommand) -> (r: IntentResult)
        ensures
            r.commands@ == seq![command],
    {
        let mut commands = Vec::new();
        commands.push(command);
        IntentResult { commands }
    }

    /// The message names of the commands, in order.
    pub fn message_names(&self) -> (names: Vec<String>)
        ensures
            names@.len() == self.commands@.len(),
            forall|i: int|
                0 <= i < names@.len() ==> #[trigger] names@[i]@ == command_name(self.commands@[i]),
    {
        let mut names: Vec<String> = Vec::new();
        let mut i: usize = 0;
        while i < self.commands.len()
            invariant
                i <= self.commands@.len(),
                names@.len() == i,
                forall|j: int|
                    0 <= j < i ==> #[trigger] names@[j]@ == command_name(self.commands@[j]),
            decreases self.commands@.len() - i,
        {
            names.push(self.commands[i].name().to_owned());
            i = i + 1;
        }
        names
    }
}

} // verus!
