//! The bookkeeping of the actor that owns subscription authentication.
//!
//! A login attempt runs as a spawned task carrying a cancellation signal and
//! an attempt number. Everything it reports travels back with that number
//! attached, so a result from an attempt the user cancelled, or replaced with
//! a newer one, is discarded rather than allowed to change what the modal
//! shows or the stored account. Spawning, cancelling and publishing happen
//! around these functions; which attempt is current, and what each message
//! does to the modal, is decided here.

use vstd::prelude::*;

use crate::auth_service::{registered_methods, AuthService};
use crate::auth_ui::app_state::{without_auth_screens, AppState};
use crate::auth_ui::picker_entry::AuthProviderEntry;
use crate::auth_ui::protocol::SubscriptionCredentialsChanged;
use crate::auth_ui::state::{after_report, AuthFlow, AuthPhase};
use crate::login_method::LoginMethod;
use crate::provider_id::{provider_display_name, AuthProviderId};
use crate::provider_id::provider_wire_id;

verus! {

/// A login attempt in flight.
#[derive(Debug, Clone, Copy, PartialEq, Eq, Structural)]
pub struct ActiveAttempt {
    /// Number identifying this attempt in reports and results.
    pub id: u64,
    /// Whether the attempt still waits for a pasted authorization code.
    pub awaiting_code: bool,
}

/// Which attempt is running and which number the next one gets.
#[derive(Debug, Clone, Copy, PartialEq, Eq, Structural)]
pub struct AuthActor {
    /// The attempt currently running, if any.
    pub active: Option<ActiveAttempt>,
    /// Number assigned to the next attempt.
    pub next_attempt: u64,
}

/// Whether `attempt` is the attempt `actor` is running.
pub open spec fn is_current(actor: AuthActor, attempt: u64) -> bool {
    actor.active matches Some(a) && a.id == attempt
}

/// What the actor does when an attempt finishes.
#[derive(Debug, Clone, PartialEq, Eq)]
pub enum FinishOutcome {
    /// The attempt was cancelled or replaced; its result is ignored.
    Ignored,
    /// The attempt failed; the modal shows why.
    Failed,
    /// The login succeeded: the modal closed, and these are published.
    SignedIn {
        /// Availability for the rest of the application.
        changed: SubscriptionCredentialsChanged,
        /// A notice for the chat area.
        notice: String,
    },
}

/// The chat notice after signing in to `provider`.
pub open spec fn signed_in_text(provider: AuthProviderId) -> Seq<char> {
    "Signed in to "@ + provider_display_name(provider)
        + ". Open the model picker to select a "@ + provider_display_name(provider) + " model."@
}

/// The chat notice after logging out of `provider`.
pub open spec fn logged_out_text(provider: AuthProviderId) -> Seq<char> {
    "Logged out of "@ + provider_display_name(provider) + "."@
}

impl AuthActor {
    /// An actor with no attempt; the first attempt is number 1.
    pub fn new() -> (a: AuthActor)
        ensures
            a.active is None,
            a.next_attempt == 1,
    {
        AuthActor { active: None, next_attempt: 1 }
    }

    /// Whether `attempt` is the attempt currently running.
    pub fn is_current_attempt(&self, attempt: u64) -> (r: bool)
        ensures
            r == is_current(*self, attempt),
    {
        match self.active {
            Some(active) => active.id == attempt,
            None => false,
        }
    }

    /// Forgets the running attempt; returns its number so its task can be
    /// cancelled.
    pub fn abandon_active_attempt(&mut self) -> (cancelled: Option<u64>)
        ensures
            final(self).active is None,
            final(self).next_attempt == old(self).next_attempt,
            cancelled == (match old(self).active {
                Some(a) => Some(a.id),
                None => None,
            }),
    {
        let cancelled = match self.active {
            Some(active) => Some(active.id),
            None => None,
        };
        self.active = None;
        cancelled
    }

    /// Cancels any running attempt and starts a new one. Returns the new
    /// attempt's number and the number of the attempt it replaced, whose task
    /// must be cancelled.
    pub fn start_login(&mut self, state: &mut AppState, provider: AuthProviderId, method: LoginMethod) -> (r: (
        u64,
        Option<u64>,
    ))
        ensures
            r.0 == old(self).next_attempt,
            r.1 == (match old(self).active {
                Some(a) => Some(a.id),
                None => None,
            }),
            final(self).active == Some(ActiveAttempt { id: r.0, awaiting_code: true }),
            final(self).next_attempt == (if old(self).next_attempt == u64::MAX {
                u64::MAX
            } else {
                (old(self).next_attempt + 1) as u64
            }),
            final(state).auth.current() == Some(
                AuthFlow { provider, method, phase: AuthPhase::Starting },
            ),
            final(state).frontend == old(state).frontend,
    {
        let replaced = self.abandon_active_attempt();
        let attempt = self.next_attempt;
        self.next_attempt = if self.next_attempt == u64::MAX {
            u64::MAX
        } else {
            self.next_attempt + 1
        };
        state.auth.begin(provider, method);
        self.active = Some(ActiveAttempt { id: attempt, awaiting_code: true });
        (attempt, replaced)
    }

    /// Abandons the active attempt and clears the modal; returns the number of
    /// the attempt whose task must be cancelled.
    pub fn cancel_login(&mut self, state: &mut AppState) -> (cancelled: Option<u64>)
        ensures
            final(self).active is None,
            final(self).next_attempt == old(self).next_attempt,
            cancelled == (match old(self).active {
                Some(a) => Some(a.id),
                None => None,
            }),
            final(state).auth.current() is None,
            final(state).frontend == old(state).frontend,
    {
        let cancelled = self.abandon_active_attempt();
        state.auth.clear();
        cancelled
    }

    /// Takes the pasted-code slot of the active attempt: returns the attempt's
    /// number when it still waits for a code, which can be delivered once.
    pub fn take_code_slot(&mut self) -> (r: Option<u64>)
        ensures
            final(self).next_attempt == old(self).next_attempt,
            match old(self).active {
                Some(a) => if a.awaiting_code {
                    r == Some(a.id) && final(self).active == Some(
                        ActiveAttempt { id: a.id, awaiting_code: false },
                    )
                } else {
                    r is None && final(self).active == old(self).active
                },
                None => r is None && final(self).active is None,
            },
    {
        match self.active {
            Some(active) => {
                if active.awaiting_code {
                    self.active = Some(ActiveAttempt { id: active.id, awaiting_code: false });
                    Some(active.id)
                } else {
                    None
                }
            },
            None => None,
        }
    }

    /// Applies a progress report, unless it comes from an attempt that is no
    /// longer current.
    pub fn progress_reported(&self, state: &mut AppState, attempt: u64, phase: AuthPhase)
        ensures
            is_current(*self, attempt) ==> final(state).auth.current() == after_report(
                old(state).auth.current(),
                phase,
            ),
            !is_current(*self, attempt) ==> final(state).auth == old(state).auth,
            final(state).frontend == old(state).frontend,
    {
        if !self.is_current_attempt(attempt) {
            return;
        }
        state.auth.report(phase);
    }

    /// Settles a finished attempt, unless it is no longer current. A failure
    /// is shown in the modal; a success closes the modal and yields what to
    /// publish.
    pub fn attempt_finished(
        &mut self,
        state: &mut AppState,
        attempt: u64,
        provider: AuthProviderId,
        failure: Option<String>,
    ) -> (r: FinishOutcome)
        ensures
            final(self).next_attempt == old(self).next_attempt,
            !is_current(*old(self), attempt) ==> r == FinishOutcome::Ignored && *final(self) == *old(
                self,
            ) && final(state).auth == old(state).auth && final(state).frontend == old(
                state,
            ).frontend,
            is_current(*old(self), attempt) ==> final(self).active is None,
            is_current(*old(self), attempt) ==> match failure {
                Some(message) => r == FinishOutcome::Failed && final(state).auth.current()
                    == after_report(old(state).auth.current(), AuthPhase::Failed { message })
                    && final(state).frontend == old(state).frontend,
                None => {
                    &&& r matches FinishOutcome::SignedIn { changed, notice } && changed
                        == (SubscriptionCredentialsChanged { provider, is_configured: true })
                        && notice@ == signed_in_text(provider)
                    &&& final(state).auth.current() is None
                    &&& final(state).frontend.scope_stack@ == without_auth_screens(
                        old(state).frontend.scope_stack@,
                    )
                    &&& final(state).frontend.auth_login_picker == old(
                        state,
                    ).frontend.auth_login_picker
                    &&& final(state).frontend.auth_logout_picker == old(
                        state,
                    ).frontend.auth_logout_picker
                    &&& final(state).frontend.auth_method_picker == old(
                        state,
                    ).frontend.auth_method_picker
                    &&& final(state).frontend.auth_progress_picker == old(
                        state,
                    ).frontend.auth_progress_picker
                },
            },
    {
        if !self.is_current_attempt(attempt) {
            return FinishOutcome::Ignored;
        }
        self.active = None;
        match failure {
            Some(message) => {
                state.auth.fail(message);
                FinishOutcome::Failed
            },
            None => {
                state.auth.clear();
                state.frontend.close_auth_modal();
                FinishOutcome::SignedIn {
                    changed: SubscriptionCredentialsChanged { provider, is_configured: true },
                    notice: signed_in_notice(provider),
                }
            },
        }
    }
}

/// The chat notice after signing in to `provider`.
pub fn signed_in_notice(provider: AuthProviderId) -> (s: String)
    ensures
        s@ == signed_in_text(provider),
{
    let name = provider.display_name();
    let mut s = "Signed in to ".to_owned();
    s.append(name);
    s.append(". Open the model picker to select a ");
    s.append(name);
    s.append(" model.");
    s
}

/// What a finished logout publishes: availability for the rest of the
/// application, and a notice for the chat area. A logout that could not
/// remove the credentials publishes nothing.
pub fn logout_finished(provider: AuthProviderId, removed: bool) -> (r: Option<
    (SubscriptionCredentialsChanged, String),
>)
    ensures
        !removed ==> r is None,
        removed ==> (r matches Some((changed, notice)) && changed == (SubscriptionCredentialsChanged {
            provider,
            is_configured: false,
        }) && notice@ == logged_out_text(provider)),
{
    if !removed {
        return None;
    }
    let mut notice = "Logged out of ".to_owned();
    notice.append(provider.display_name());
    notice.append(".");
    Some((SubscriptionCredentialsChanged { provider, is_configured: false }, notice))
}

/// Whether `rows` are the login picker's rows for `service`: each registered
/// provider, with its stored status and methods.
pub open spec fn login_rows(rows: Seq<AuthProviderEntry>, service: AuthService) -> bool {
    &&& rows.len() == (if registered_methods(service.registry(), AuthProviderId::OpenAiCodex) is Some {
        1int
    } else {
        0int
    })
    &&& forall|i: int|
        0 <= i < rows.len() ==> {
            &&& (#[trigger] rows[i]).provider == AuthProviderId::OpenAiCodex
            &&& rows[i].name@ == provider_display_name(rows[i].provider)
            &&& rows[i].is_configured == service.stored().contains(rows[i].provider)
            &&& registered_methods(service.registry(), rows[i].provider) == Some(rows[i].methods@)
        }
}

/// The login picker's rows: every registered provider, with whether it has
/// stored credentials and which methods it offers.
pub fn login_picker_entries(service: &AuthService) -> (rows: Vec<AuthProviderEntry>)
    ensures
        login_rows(rows@, *service),
{
    let ids = service.provider_ids();
    let mut rows: Vec<AuthProviderEntry> = Vec::new();
    if ids.len() > 0 {
        let provider = ids[0];
        let configured = service.has_credentials(provider);
        let methods = service.methods(provider);
        rows.push(AuthProviderEntry::new(provider, configured, methods));
    }
    rows
}

/// The logout picker's rows: registered providers with stored credentials.
pub fn logout_picker_entries(service: &AuthService) -> (rows: Vec<AuthProviderEntry>)
    ensures
        forall|i: int|
            0 <= i < rows@.len() ==> {
                &&& (#[trigger] rows@[i]).is_configured
                &&& service.stored().contains(rows@[i].provider)
                &&& rows@[i].name@ == provider_display_name(rows@[i].provider)
                &&& registered_methods(service.registry(), rows@[i].provider) == Some(
                    rows@[i].methods@,
                )
            },
        rows@.len() == (if registered_methods(service.registry(), AuthProviderId::OpenAiCodex) is Some
            && service.stored().contains(AuthProviderId::OpenAiCodex) {
            1int
        } else {
            0int
        }),
{
    let ids = service.provider_ids();
    let mut rows: Vec<AuthProviderEntry> = Vec::new();
    if ids.len() > 0 {
        let provider = ids[0];
        if service.has_credentials(provider) {
            let methods = service.methods(provider);
            rows.push(AuthProviderEntry::new(provider, true, methods));
        }
    }
    rows
}

/// Whether every attempt started so far has a number below the next one.
pub open spec fn numbers_ahead(actor: AuthActor) -> bool {
    actor.active matches Some(a) ==> a.id < actor.next_attempt
}

/// Starting a login supersedes the running attempt for good: the replaced
/// attempt is no longer current, so its late reports and result are
/// ignored, and (short of the counter saturating) numbering stays ahead.
pub proof fn lemma_superseded_attempt_is_stale(before: AuthActor, after: AuthActor)
    requires
        numbers_ahead(before),
        before.active is Some,
        after.active == Some(ActiveAttempt { id: before.next_attempt, awaiting_code: true }),
        after.next_attempt == (if before.next_attempt == u64::MAX {
            u64::MAX
        } else {
            (before.next_attempt + 1) as u64
        }),
    ensures
        !is_current(after, before.active->Some_0.id),
        before.next_attempt < u64::MAX ==> numbers_ahead(after),
{
}

/// After a cancellation no attempt is current, so nothing a cancelled
/// attempt reports can reach the modal.
pub proof fn lemma_cancelled_attempts_are_stale(after: AuthActor, attempt: u64)
    requires
        after.active is None,
    ensures
        !is_current(after, attempt),
{
}

} // verus!
