//! Synchronous handling of the authentication intents.
//!
//! These functions validate the request, move the modal to its next step, and
//! return the commands the auth actor acts on. No network access or storage
//! happens here.

use vstd::prelude::*;

use crate::auth_ui::app_state::{is_auth_kind, top_picker, AppState, FocusScope, PickerKind};
use crate::auth_ui::picker_entry::AuthMethodEntry;
use crate::auth_ui::protocol::{
    AuthCommand, CancelLogin, IntentResult, LoadLoginPickerEntries, LoadLogoutPickerEntries,
    Logout, StartLogin, SubmitAuthorizationCode,
};
use crate::auth_ui::state::{retry_choice, AuthPhase};
use crate::login_method::method_label;
use crate::text::{chars_of, trim, trim_chars};

verus! {

/// Why a login picker cannot be opened.
#[derive(Debug, Clone, Copy, PartialEq, Eq, Structural)]
pub enum OpenAuthPickerError {
    /// Another picker is already open; authentication never stacks on top of
    /// one.
    AlreadyInPicker,
}

/// Validates opening one of the authentication pickers.
pub fn validate_open_auth_picker(state: &AppState) -> (r: Result<(), OpenAuthPickerError>)
    ensures
        r is Err <==> top_picker(state.frontend.scope_stack@) is Some,
        r is Err ==> r == Err::<(), OpenAuthPickerError>(OpenAuthPickerError::AlreadyInPicker),
{
    if state.frontend.scope_stack.is_picker() {
        return Err(OpenAuthPickerError::AlreadyInPicker);
    }
    Ok(())
}

/// Whether an intent left everything but the scope stack and the named
/// picker as it was.
pub open spec fn others_unchanged_but_login(a: AppState, b: AppState) -> bool {
    &&& b.auth == a.auth
    &&& b.frontend.auth_logout_picker == a.frontend.auth_logout_picker
    &&& b.frontend.auth_method_picker == a.frontend.auth_method_picker
    &&& b.frontend.auth_progress_picker == a.frontend.auth_progress_picker
}

/// Opens the login provider picker.
pub fn handle_open_login_picker(state: &mut AppState) -> (r: IntentResult)
    ensures
        top_picker(old(state).frontend.scope_stack@) is Some ==> r.commands@.len() == 0
            && *final(state) == *old(state),
        top_picker(old(state).frontend.scope_stack@) is None ==> {
            &&& r.commands@ == seq![
                AuthCommand::LoadLoginPickerEntries(LoadLoginPickerEntries),
            ]
            &&& final(state).frontend.scope_stack@ == old(state).frontend.scope_stack@.push(
                FocusScope::Picker { kind: PickerKind::AuthLogin },
            )
            &&& final(state).frontend.auth_login_picker.rows() == old(
                state,
            ).frontend.auth_login_picker.rows()
            &&& final(state).frontend.auth_login_picker.selection() == 0
            &&& final(state).frontend.auth_login_picker.input().len() == 0
            &&& others_unchanged_but_login(*old(state), *final(state))
        },
{
    if validate_open_auth_picker(state).is_err() {
        return IntentResult::empty();
    }
    state.frontend.auth_login_picker.reset();
    state.frontend.scope_stack.push(FocusScope::Picker { kind: PickerKind::AuthLogin });
    IntentResult::new_message(AuthCommand::LoadLoginPickerEntries(LoadLoginPickerEntries))
}

/// Opens the logout picker.
pub fn handle_open_logout_picker(state: &mut AppState) -> (r: IntentResult)
    ensures
        top_picker(old(state).frontend.scope_stack@) is Some ==> r.commands@.len() == 0
            && *final(state) == *old(state),
        top_picker(old(state).frontend.scope_stack@) is None ==> {
            &&& r.commands@ == seq![
                AuthCommand::LoadLogoutPickerEntries(LoadLogoutPickerEntries),
            ]
            &&& final(state).frontend.scope_stack@ == old(state).frontend.scope_stack@.push(
                FocusScope::Picker { kind: PickerKind::AuthLogout },
            )
            &&& final(state).frontend.auth_logout_picker.rows() == old(
                state,
            ).frontend.auth_logout_picker.rows()
            &&& final(state).frontend.auth_logout_picker.selection() == 0
            &&& final(state).frontend.auth_logout_picker.input().len() == 0
            &&& final(state).auth == old(state).auth
            &&& final(state).frontend.auth_login_picker == old(state).frontend.auth_login_picker
            &&& final(state).frontend.auth_method_picker == old(state).frontend.auth_method_picker
            &&& final(state).frontend.auth_progress_picker == old(
                state,
            ).frontend.auth_progress_picker
        },
{
    if validate_open_auth_picker(state).is_err() {
        return IntentResult::empty();
    }
    state.frontend.auth_logout_picker.reset();
    state.frontend.scope_stack.push(FocusScope::Picker { kind: PickerKind::AuthLogout });
    IntentResult::new_message(AuthCommand::LoadLogoutPickerEntries(LoadLogoutPickerEntries))
}

/// Whether `entries` are the method rows of `provider` offering `methods`, in
/// order.
pub open spec fn method_rows(
    entries: Seq<AuthMethodEntry>,
    provider: crate::provider_id::AuthProviderId,
    methods: Seq<crate::login_method::LoginMethod>,
) -> bool {
    &&& entries.len() == methods.len()
    &&& forall|i: int|
        0 <= i < entries.len() ==> {
            &&& (#[trigger] entries[i]).provider == provider
            &&& entries[i].method == methods[i]
            &&& entries[i].label@ == method_label(methods[i])
        }
}

/// Moves from the chosen provider to its login-method picker. The methods
/// come from the selected row, so a provider that supports only one of them
/// lists only that one.
pub fn confirm_login_provider(state: &mut AppState) -> (r: IntentResult)
    ensures
        r.commands@.len() == 0,
        ({
            let login = old(state).frontend.auth_login_picker;
            if login.selection() < login.rows().len() {
                let entry = login.rows()[login.selection() as int];
                &&& method_rows(
                    final(state).frontend.auth_method_picker.rows(),
                    entry.provider,
                    entry.methods@,
                )
                &&& final(state).frontend.auth_method_picker.selection() == 0
                &&& final(state).frontend.auth_method_picker.input().len() == 0
                &&& final(state).frontend.scope_stack@ == old(state).frontend.scope_stack@.push(
                    FocusScope::Picker { kind: PickerKind::AuthMethod },
                )
                &&& final(state).auth == old(state).auth
                &&& final(state).frontend.auth_login_picker == old(state).frontend.auth_login_picker
                &&& final(state).frontend.auth_logout_picker == old(
                    state,
                ).frontend.auth_logout_picker
                &&& final(state).frontend.auth_progress_picker == old(
                    state,
                ).frontend.auth_progress_picker
            } else {
                *final(state) == *old(state)
            }
        }),
{
    let (provider, methods) = match state.frontend.auth_login_picker.selected_item() {
        Some(entry) => (entry.provider, entry.methods.clone()),
        None => return IntentResult::empty(),
    };
    let mut rows: Vec<AuthMethodEntry> = Vec::new();
    let mut i: usize = 0;
    while i < methods.len()
        invariant
            i <= methods@.len(),
            method_rows(rows@, provider, methods@.take(i as int)),
        decreases methods@.len() - i,
    {
        rows.push(AuthMethodEntry::new(provider, methods[i]));
        i = i + 1;
    }
    assert(methods@.take(i as int) =~= methods@);
    state.frontend.auth_method_picker.reset();
    state.frontend.auth_method_picker.set_items(rows);
    state.frontend.scope_stack.push(FocusScope::Picker { kind: PickerKind::AuthMethod });
    IntentResult::empty()
}

/// Starts the login with the chosen method and opens the progress modal.
pub fn confirm_login_method(state: &mut AppState) -> (r: IntentResult)
    ensures
        ({
            let methods = old(state).frontend.auth_method_picker;
            if methods.selection() < methods.rows().len() {
                let entry = methods.rows()[methods.selection() as int];
                &&& r.commands@ == seq![
                    AuthCommand::StartLogin(
                        StartLogin { provider: entry.provider, method: entry.method },
                    ),
                ]
                &&& final(state).frontend.scope_stack@ == old(state).frontend.scope_stack@.push(
                    FocusScope::Picker { kind: PickerKind::AuthProgress },
                )
                &&& final(state).frontend.auth_progress_picker.rows() == old(
                    state,
                ).frontend.auth_progress_picker.rows()
                &&& final(state).frontend.auth_progress_picker.selection() == 0
                &&& final(state).frontend.auth_progress_picker.input().len() == 0
                &&& final(state).auth == old(state).auth
                &&& final(state).frontend.auth_login_picker == old(state).frontend.auth_login_picker
                &&& final(state).frontend.auth_logout_picker == old(
                    state,
                ).frontend.auth_logout_picker
                &&& final(state).frontend.auth_method_picker == old(
                    state,
                ).frontend.auth_method_picker
            } else {
                r.commands@.len() == 0 && *final(state) == *old(state)
            }
        }),
{
    let (provider, method) = match state.frontend.auth_method_picker.selected_item() {
        Some(entry) => (entry.provider, entry.method),
        None => return IntentResult::empty(),
    };
    state.frontend.auth_progress_picker.reset();
    state.frontend.scope_stack.push(FocusScope::Picker { kind: PickerKind::AuthProgress });
    IntentResult::new_message(AuthCommand::StartLogin(StartLogin { provider, method }))
}

/// Whether the active attempt is showing a failure.
pub open spec fn shows_failure(state: AppState) -> bool {
    state.auth.current() matches Some(f) && f.phase is Failed
}

/// Handles Enter in the authentication modal.
///
/// After a failure, Enter retries the same method. Otherwise it submits
/// whatever the user typed as an authorization code. An empty input with no
/// failure to retry does nothing.
pub fn confirm_auth_progress(state: &mut AppState) -> (r: IntentResult)
    ensures
        final(state).auth == old(state).auth,
        final(state).frontend.scope_stack@ == old(state).frontend.scope_stack@,
        final(state).frontend.auth_login_picker == old(state).frontend.auth_login_picker,
        final(state).frontend.auth_logout_picker == old(state).frontend.auth_logout_picker,
        final(state).frontend.auth_method_picker == old(state).frontend.auth_method_picker,
        final(state).frontend.auth_progress_picker.rows() == old(
            state,
        ).frontend.auth_progress_picker.rows(),
        shows_failure(*old(state)) ==> ({
            let (provider, method) = retry_choice(old(state).auth.current())->Some_0;
            &&& r.commands@ == seq![
                AuthCommand::StartLogin(StartLogin { provider, method }),
            ]
            &&& final(state).frontend.auth_progress_picker.selection() == 0
            &&& final(state).frontend.auth_progress_picker.input().len() == 0
        }),
        !shows_failure(*old(state)) ==> ({
            let input = old(state).frontend.auth_progress_picker.input();
            if trim(input).len() == 0 {
                r.commands@.len() == 0 && final(state).frontend.auth_progress_picker == old(
                    state,
                ).frontend.auth_progress_picker
            } else {
                &&& r.commands@.len() == 1
                &&& r.commands@[0] matches AuthCommand::SubmitAuthorizationCode(c) && c.input@
                    == input
                &&& final(state).frontend.auth_progress_picker.input().len() == 0
                &&& final(state).frontend.auth_progress_picker.selection() == old(
                    state,
                ).frontend.auth_progress_picker.selection()
            }
        }),
{
    if state.auth.failure_message().is_some() {
        let (provider, method) = match state.auth.active_attempt() {
            Some(choice) => choice,
            None => return IntentResult::empty(),
        };
        state.frontend.auth_progress_picker.reset();
        return IntentResult::new_message(AuthCommand::StartLogin(StartLogin { provider, method }));
    }
    let input = state.frontend.auth_progress_picker.filter().to_owned();
    let cs = chars_of(input.as_str());
    if trim_chars(cs.as_slice()).len() == 0 {
        return IntentResult::empty();
    }
    state.frontend.auth_progress_picker.clear_filter();
    IntentResult::new_message(
        AuthCommand::SubmitAuthorizationCode(SubmitAuthorizationCode { input }),
    )
}

/// Logs the selected provider out.
pub fn confirm_logout(state: &mut AppState) -> (r: IntentResult)
    ensures
        ({
            let logout = old(state).frontend.auth_logout_picker;
            if logout.selection() < logout.rows().len() {
                let entry = logout.rows()[logout.selection() as int];
                &&& r.commands@ == seq![
                    AuthCommand::Logout(Logout { provider: entry.provider }),
                ]
                &&& final(state).frontend.scope_stack@.len() == 0
                &&& final(state).auth == old(state).auth
                &&& final(state).frontend.auth_login_picker == old(state).frontend.auth_login_picker
                &&& final(state).frontend.auth_logout_picker == old(
                    state,
                ).frontend.auth_logout_picker
                &&& final(state).frontend.auth_method_picker == old(
                    state,
                ).frontend.auth_method_picker
                &&& final(state).frontend.auth_progress_picker == old(
                    state,
                ).frontend.auth_progress_picker
            } else {
                r.commands@.len() == 0 && *final(state) == *old(state)
            }
        }),
{
    let provider = match state.frontend.auth_logout_picker.selected_item() {
        Some(entry) => entry.provider,
        None => return IntentResult::empty(),
    };
    state.frontend.scope_stack.clear_overlays();
    IntentResult::new_message(AuthCommand::Logout(Logout { provider }))
}

/// Abandons the active attempt and closes the modal.
///
/// Cancelling stops the attempt's callback listener and polling, and a result
/// arriving afterwards is ignored, so cancelling can never change the stored
/// account.
pub fn handle_cancel_authentication(state: &mut AppState) -> (r: IntentResult)
    ensures
        final(state).auth.current() is None,
        final(state).frontend.scope_stack@.len() == 0,
        final(state).frontend.auth_login_picker == old(state).frontend.auth_login_picker,
        final(state).frontend.auth_logout_picker == old(state).frontend.auth_logout_picker,
        final(state).frontend.auth_method_picker == old(state).frontend.auth_method_picker,
        final(state).frontend.auth_progress_picker == old(state).frontend.auth_progress_picker,
        old(state).auth.current() is Some ==> r.commands@ == seq![
            AuthCommand::CancelLogin(CancelLogin),
        ],
        old(state).auth.current() is None ==> r.commands@.len() == 0,
{
    let was_active = state.auth.is_active();
    state.auth.clear();
    state.frontend.scope_stack.clear_overlays();
    if was_active {
        return IntentResult::new_message(AuthCommand::CancelLogin(CancelLogin));
    }
    IntentResult::empty()
}

/// Whether `kind` is one of the authentication modals.
pub fn is_auth_picker(kind: PickerKind) -> (r: bool)
    ensures
        r == is_auth_kind(kind),
{
    match kind {
        PickerKind::AuthLogin | PickerKind::AuthMethod | PickerKind::AuthProgress
        | PickerKind::AuthLogout => true,
        _ => false,
    }
}

} // verus!
