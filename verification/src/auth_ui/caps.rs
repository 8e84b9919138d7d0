//! The narrow write access the auth actor is given: to the active attempt,
//! and to the pickers and modal scope that present it.

use vstd::prelude::*;

use crate::auth_ui::app_state::{without_auth_screens, FocusScope, FrontendState};
use crate::auth_ui::picker_entry::{AuthMethodEntry, AuthProviderEntry};
use crate::auth_ui::state::{after_report, AuthFlow, AuthPhase, AuthState};
use crate::login_method::LoginMethod;
use crate::provider_id::AuthProviderId;

verus! {

/// Write access to the active authentication attempt.
pub trait AuthFlowWrite {
    /// The active attempt.
    spec fn attempt(&self) -> Option<AuthFlow>;

    /// Starts a fresh attempt.
    fn begin_attempt(&mut self, provider: AuthProviderId, method: LoginMethod)
        ensures
            final(self).attempt() == Some(
                AuthFlow { provider, method, phase: AuthPhase::Starting },
            ),
    ;

    /// Updates what the active attempt is showing.
    fn report_phase(&mut self, phase: AuthPhase)
        ensures
            final(self).attempt() == after_report(old(self).attempt(), phase),
    ;

    /// Shows a failure, keeping the attempt available for retry.
    fn fail_attempt(&mut self, message: String)
        ensures
            final(self).attempt() == after_report(
                old(self).attempt(),
                AuthPhase::Failed { message },
            ),
    ;

    /// Clears the modal.
    fn clear_attempt(&mut self)
        ensures
            final(self).attempt() is None,
    ;

    /// Whether an attempt is active.
    fn has_attempt(&self) -> (r: bool)
        ensures
            r == self.attempt() is Some,
    ;
}

impl AuthFlowWrite for AuthState {
    open spec fn attempt(&self) -> Option<AuthFlow> {
        self.current()
    }

    fn begin_attempt(&mut self, provider: AuthProviderId, method: LoginMethod) {
        self.begin(provider, method);
    }

    fn report_phase(&mut self, phase: AuthPhase) {
        self.report(phase);
    }

    fn fail_attempt(&mut self, message: String) {
        self.fail(message);
    }

    fn clear_attempt(&mut self) {
        self.clear();
    }

    fn has_attempt(&self) -> (r: bool) {
        self.is_active()
    }
}

/// Write access to the auth-owned pickers and the modal scope.
pub trait FrontendAuthWrite {
    /// The login picker's rows.
    spec fn login_rows(&self) -> Seq<AuthProviderEntry>;

    /// The logout picker's rows.
    spec fn logout_rows(&self) -> Seq<AuthProviderEntry>;

    /// The login-method picker's rows.
    spec fn method_rows(&self) -> Seq<AuthMethodEntry>;

    /// The focus scopes.
    spec fn scopes(&self) -> Seq<FocusScope>;

    /// Replaces the login picker's provider rows.
    fn set_login_picker_items(&mut self, items: Vec<AuthProviderEntry>)
        ensures
            final(self).login_rows() == items@,
            final(self).scopes() == old(self).scopes(),
    ;

    /// Replaces the logout picker's provider rows.
    fn set_logout_picker_items(&mut self, items: Vec<AuthProviderEntry>)
        ensures
            final(self).logout_rows() == items@,
            final(self).scopes() == old(self).scopes(),
    ;

    /// Replaces the login-method picker's rows.
    fn set_auth_method_picker_items(&mut self, items: Vec<AuthMethodEntry>)
        ensures
            final(self).method_rows() == items@,
            final(self).scopes() == old(self).scopes(),
    ;

    /// Closes the authentication modal if one is open. The auth actor writes
    /// the focus scope only to dismiss its own modal once a login succeeded.
    fn close_auth_modal(&mut self)
        ensures
            final(self).scopes() == without_auth_screens(old(self).scopes()),
            final(self).login_rows() == old(self).login_rows(),
            final(self).logout_rows() == old(self).logout_rows(),
            final(self).method_rows() == old(self).method_rows(),
    ;
}

impl FrontendAuthWrite for FrontendState {
    open spec fn login_rows(&self) -> Seq<AuthProviderEntry> {
        self.auth_login_picker.rows()
    }

    open spec fn logout_rows(&self) -> Seq<AuthProviderEntry> {
        self.auth_logout_picker.rows()
    }

    open spec fn method_rows(&self) -> Seq<AuthMethodEntry> {
        self.auth_method_picker.rows()
    }

    open spec fn scopes(&self) -> Seq<FocusScope> {
        self.scope_stack@
    }

    fn set_login_picker_items(&mut self, items: Vec<AuthProviderEntry>) {
        self.auth_login_picker.set_items(items);
    }

    fn set_logout_picker_items(&mut self, items: Vec<AuthProviderEntry>) {
        self.auth_logout_picker.set_items(items);
    }

    fn set_auth_method_picker_items(&mut self, items: Vec<AuthMethodEntry>) {
        self.auth_method_picker.set_items(items);
    }

    fn close_auth_modal(&mut self) {
        FrontendState::close_auth_modal(self);
    }
}

} // verus!
