//! What the authentication modal is currently showing.
//!
//! One attempt is active at a time. The state records which provider and
//! method it belongs to and what the user should see right now: an
//! authorization URL, a device code, a progress note, or an error.
//!
//! Nothing secret is kept here. Authorization codes and tokens never reach
//! application state, so they cannot leak into rendering, logs, or history.

use vstd::prelude::*;

use crate::login_method::LoginMethod;
use crate::provider_id::AuthProviderId;

verus! {

/// What the active attempt is waiting on.
#[derive(Debug, Clone, PartialEq, Eq)]
pub enum AuthPhase {
    /// The attempt has begun but the provider has not reported anything yet.
    Starting,
    /// The user should authorize at `url`.
    Authorizing {
        /// The authorization page.
        url: String,
        /// What the user should do next.
        instructions: String,
    },
    /// The user should enter `user_code` at `verification_uri`.
    DeviceCode {
        /// Where the code is entered.
        verification_uri: String,
        /// The code the user types.
        user_code: String,
    },
    /// The attempt is working; `message` says on what.
    Working {
        /// What the attempt is currently doing.
        message: String,
    },
    /// The attempt failed; `message` explains why.
    Failed {
        /// Why the attempt failed.
        message: String,
    },
}

/// An authentication attempt in progress.
#[derive(Debug, Clone, PartialEq, Eq)]
pub struct AuthFlow {
    /// Which provider is being authenticated.
    pub provider: AuthProviderId,
    /// Which login method the user chose.
    pub method: LoginMethod,
    /// What the modal should show.
    pub phase: AuthPhase,
}

/// Authentication state: the active attempt, if any.
#[derive(Debug)]
pub struct AuthState {
    flow: Option<AuthFlow>,
}

/// What the modal shows after `phase` is reported: the attempt's provider
/// and method with the new phase, or nothing when no attempt is active.
pub open spec fn after_report(current: Option<AuthFlow>, phase: AuthPhase) -> Option<AuthFlow> {
    match current {
        Some(f) => Some(AuthFlow { phase, ..f }),
        None => None,
    }
}

/// The provider and method an attempt would be retried with.
pub open spec fn retry_choice(current: Option<AuthFlow>) -> Option<(AuthProviderId, LoginMethod)> {
    match current {
        Some(f) => Some((f.provider, f.method)),
        None => None,
    }
}

impl Default for AuthState {
    fn default() -> (s: AuthState)
        ensures
            s.current() is None,
    {
        AuthState { flow: None }
    }
}

impl AuthState {
    /// The active attempt, if any.
    pub closed spec fn current(self) -> Option<AuthFlow> {
        self.flow
    }

    /// Untouched authentication state.
    pub fn new() -> (s: AuthState)
        ensures
            s.current() is None,
    {
        AuthState { flow: None }
    }

    /// The active attempt, if any.
    pub fn flow(&self) -> (r: Option<&AuthFlow>)
        ensures
            match r {
                Some(f) => self.current() == Some(*f),
                None => self.current() is None,
            },
    {
        self.flow.as_ref()
    }

    /// Whether an attempt is in progress or showing its outcome.
    pub fn is_active(&self) -> (r: bool)
        ensures
            r == self.current() is Some,
    {
        self.flow.is_some()
    }

    /// The provider and method of the active attempt, for retrying it.
    pub fn active_attempt(&self) -> (r: Option<(AuthProviderId, LoginMethod)>)
        ensures
            r == retry_choice(self.current()),
    {
        match &self.flow {
            Some(flow) => Some((flow.provider, flow.method)),
            None => None,
        }
    }

    /// The failure message currently shown, if the attempt failed.
    pub fn failure_message(&self) -> (r: Option<&str>)
        ensures
            match r {
                Some(m) => self.current() matches Some(f) && f.phase matches AuthPhase::Failed {
                    message,
                } && message@ == m@,
                None => !(self.current() matches Some(f) && f.phase is Failed),
            },
    {
        match &self.flow {
            Some(flow) => match &flow.phase {
                AuthPhase::Failed { message } => Some(message.as_str()),
                _ => None,
            },
            None => None,
        }
    }

    /// Starts a fresh attempt, replacing anything the modal was showing.
    pub fn begin(&mut self, provider: AuthProviderId, method: LoginMethod)
        ensures
            final(self).current() == Some(AuthFlow { provider, method, phase: AuthPhase::Starting }),
    {
        self.flow = Some(AuthFlow { provider, method, phase: AuthPhase::Starting });
    }

    /// Updates what the active attempt is showing.
    ///
    /// Ignored when no attempt is active, so a late report from a cancelled
    /// attempt cannot reopen the modal.
    pub fn report(&mut self, phase: AuthPhase)
        ensures
            final(self).current() == after_report(old(self).current(), phase),
    {
        match &mut self.flow {
            Some(flow) => {
                flow.phase = phase;
            },
            None => {},
        }
    }

    /// Shows a failure in the modal, keeping the attempt's provider and method
    /// so the user can retry.
    pub fn fail(&mut self, message: String)
        ensures
            final(self).current() == after_report(
                old(self).current(),
                AuthPhase::Failed { message },
            ),
    {
        self.report(AuthPhase::Failed { message });
    }

    /// Clears the modal.
    pub fn clear(&mut self)
        ensures
            final(self).current() is None,
    {
        self.flow = None;
    }
}

/// A report never opens or closes the modal: a report arriving after the
/// modal was cleared (a late report from a cancelled attempt) leaves it
/// closed, and one arriving while it is open keeps it open.
pub proof fn lemma_report_never_reopens(current: Option<AuthFlow>, phase: AuthPhase)
    ensures
        after_report(current, phase) is Some <==> current is Some,
        after_report(None, phase) is None,
{
}

/// A failure keeps the attempt's provider and method, so Enter can retry the
/// same login.
pub proof fn lemma_failure_keeps_retry_choice(current: Option<AuthFlow>, message: String)
    ensures
        retry_choice(after_report(current, AuthPhase::Failed { message })) == retry_choice(
            current,
        ),
{
}

} // verus!
