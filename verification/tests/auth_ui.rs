use jinn::auth_service::{AuthService, ProviderRegistration};
use jinn::auth_ui::actor::{
    login_picker_entries, logout_finished, logout_picker_entries, signed_in_notice, AuthActor,
    FinishOutcome,
};
use jinn::auth_ui::app_state::{AppState, FocusScope, PickerKind, ScopeStack};
use jinn::auth_ui::intent::{
    confirm_auth_progress, confirm_login_method, confirm_login_provider, confirm_logout,
    handle_cancel_authentication, handle_open_login_picker, handle_open_logout_picker,
    is_auth_picker, validate_open_auth_picker, OpenAuthPickerError,
};
use jinn::auth_ui::picker_entry::{AuthMethodEntry, AuthProviderEntry};
use jinn::auth_ui::protocol::{AuthCommand, IntentResult};
use jinn::auth_ui::state::{AuthPhase, AuthState};
use jinn::auth_ui::view::{hint_text, phase_for, progress_body, progress_enter_action, progress_title};
use jinn::credential::OAuthCredential;
use jinn::credential_store::CredentialDocument;
use jinn::interaction::AuthEvent;
use jinn::login_method::LoginMethod;
use jinn::provider_id::AuthProviderId;

fn provider_entry(is_configured: bool) -> AuthProviderEntry {
    AuthProviderEntry::new(
        AuthProviderId::OpenAiCodex,
        is_configured,
        vec![LoginMethod::Browser, LoginMethod::DeviceCode],
    )
}

fn names(result: &IntentResult) -> Vec<String> {
    result.message_names()
}

fn registered_service() -> AuthService {
    AuthService::new(vec![ProviderRegistration {
        id: AuthProviderId::OpenAiCodex,
        methods: vec![LoginMethod::Browser, LoginMethod::DeviceCode],
    }])
}

// Rows of the pickers.

#[test]
fn an_unconfigured_provider_row_says_so() {
    let entry = provider_entry(false);
    assert_eq!(entry.display_label(), "OpenAI Codex");
    assert_eq!(entry.status_label(), "unconfigured");
}

#[test]
fn a_configured_provider_row_says_stored() {
    assert_eq!(provider_entry(true).status_label(), "stored");
}

#[test]
fn the_method_picker_offers_both_logins() {
    let browser = AuthMethodEntry::new(AuthProviderId::OpenAiCodex, LoginMethod::Browser);
    let device = AuthMethodEntry::new(AuthProviderId::OpenAiCodex, LoginMethod::DeviceCode);
    assert_eq!(browser.display_label(), "Browser login");
    assert_eq!(device.display_label(), "Device code login");
}

#[test]
fn picker_rows_follow_registration_and_presence() {
    let mut service = registered_service();
    let rows = login_picker_entries(&service);
    assert_eq!(rows.len(), 1);
    assert!(!rows[0].is_configured);
    assert_eq!(rows[0].methods, vec![LoginMethod::Browser, LoginMethod::DeviceCode]);
    assert!(logout_picker_entries(&service).is_empty());
    service
        .refresh_presence(Ok(vec![AuthProviderId::OpenAiCodex]))
        .expect("presence");
    assert!(login_picker_entries(&service)[0].is_configured);
    assert_eq!(logout_picker_entries(&service).len(), 1);
    assert!(login_picker_entries(&AuthService::new(Vec::new())).is_empty());
}

// The modal's text.

#[test]
fn the_modal_shows_the_authorization_url() {
    let phase = AuthPhase::Authorizing {
        url: "https://auth.example/authorize".to_owned(),
        instructions: "A browser window should have opened.".to_owned(),
    };
    let body = progress_body(Some(&phase));
    assert!(body.iter().any(|l| l == "https://auth.example/authorize"));
    assert_eq!(body[0], "A browser window should have opened.");
    assert_eq!(body[4], "Waiting for authorization…");
}

#[test]
fn the_modal_shows_the_device_code() {
    let phase = AuthPhase::DeviceCode {
        verification_uri: "https://auth.example/device".to_owned(),
        user_code: "ABCD-1234".to_owned(),
    };
    let body = progress_body(Some(&phase));
    assert!(body.iter().any(|l| l == "ABCD-1234"));
}

#[test]
fn the_modal_shows_the_verification_page() {
    let phase = AuthPhase::DeviceCode {
        verification_uri: "https://auth.example/device".to_owned(),
        user_code: "ABCD-1234".to_owned(),
    };
    let body = progress_body(Some(&phase));
    assert_eq!(
        body,
        vec![
            "Open this page and enter the code:".to_owned(),
            String::new(),
            "https://auth.example/device".to_owned(),
            "ABCD-1234".to_owned(),
            String::new(),
            "Waiting for authorization…".to_owned(),
        ]
    );
}

#[test]
fn the_modal_shows_progress_while_waiting() {
    let phase = phase_for(AuthEvent::Progress { message: "Exchanging authorization code".to_owned() });
    assert_eq!(progress_body(Some(&phase)), vec!["Exchanging authorization code".to_owned()]);
}

#[test]
fn the_modal_shows_a_failure_inline() {
    let mut auth = AuthState::new();
    auth.begin(AuthProviderId::OpenAiCodex, LoginMethod::Browser);
    auth.fail("Authorization was denied.".to_owned());
    assert_eq!(auth.failure_message(), Some("Authorization was denied."));
    let body = progress_body(auth.flow().map(|f| &f.phase));
    assert_eq!(body[0], "Authorization was denied.");
    assert_eq!(body[2], "Press Enter to try again, or Esc to close.");
}

#[test]
fn the_modal_offers_retry_after_a_failure() {
    assert_eq!(progress_enter_action(true), "retry");
    assert_eq!(progress_enter_action(false), "submit code");
    assert_eq!(hint_text("Enter", "retry"), "Enter retry · ESC cancel");
}

#[test]
fn the_modal_title_names_the_provider() {
    let mut auth = AuthState::new();
    assert_eq!(progress_title(auth.flow()), " Authenticating ");
    assert_eq!(progress_body(None), vec!["No authentication in progress.".to_owned()]);
    auth.begin(AuthProviderId::OpenAiCodex, LoginMethod::DeviceCode);
    assert_eq!(progress_title(auth.flow()), " OpenAI Codex login ");
    assert_eq!(progress_body(auth.flow().map(|f| &f.phase)), vec!["Starting authentication…".to_owned()]);
}

// The authentication state.

#[test]
fn a_report_after_clearing_does_not_reopen_the_modal() {
    let mut auth = AuthState::new();
    auth.begin(AuthProviderId::OpenAiCodex, LoginMethod::Browser);
    auth.clear();
    auth.report(AuthPhase::Working { message: "late".to_owned() });
    assert!(!auth.is_active());
    auth.fail("late failure".to_owned());
    assert!(!auth.is_active());
}

#[test]
fn a_failure_keeps_the_attempt_for_retry() {
    let mut auth = AuthState::new();
    auth.begin(AuthProviderId::OpenAiCodex, LoginMethod::DeviceCode);
    auth.report(AuthPhase::Working { message: "polling".to_owned() });
    auth.fail("timed out".to_owned());
    assert_eq!(auth.active_attempt(), Some((AuthProviderId::OpenAiCodex, LoginMethod::DeviceCode)));
}

// Intents.

#[test]
fn opening_the_login_picker_loads_its_rows() {
    let mut state = AppState::new();
    let result = handle_open_login_picker(&mut state);
    assert_eq!(names(&result), vec!["LoadLoginPickerEntries".to_owned()]);
    assert_eq!(state.frontend.scope_stack.picker_kind(), Some(PickerKind::AuthLogin));
}

#[test]
fn a_picker_never_opens_on_top_of_another() {
    let mut state = AppState::new();
    state.frontend.scope_stack.push(FocusScope::Picker { kind: PickerKind::Session });
    assert_eq!(validate_open_auth_picker(&state), Err(OpenAuthPickerError::AlreadyInPicker));
    assert!(names(&handle_open_login_picker(&mut state)).is_empty());
    assert!(names(&handle_open_logout_picker(&mut state)).is_empty());
    assert_eq!(state.frontend.scope_stack.picker_kind(), Some(PickerKind::Session));
}

#[test]
fn the_whole_login_walk_starts_the_chosen_method() {
    let mut state = AppState::new();
    handle_open_login_picker(&mut state);
    state.frontend.auth_login_picker.set_items(vec![provider_entry(false)]);
    let result = confirm_login_provider(&mut state);
    assert!(names(&result).is_empty());
    assert_eq!(state.frontend.scope_stack.picker_kind(), Some(PickerKind::AuthMethod));
    assert_eq!(state.frontend.auth_method_picker.items().len(), 2);
    let result = confirm_login_method(&mut state);
    match &result.commands[..] {
        [AuthCommand::StartLogin(start)] => {
            assert_eq!(start.provider, AuthProviderId::OpenAiCodex);
            assert_eq!(start.method, LoginMethod::Browser);
        }
        _ => panic!("the chosen method must start"),
    }
    assert_eq!(state.frontend.scope_stack.picker_kind(), Some(PickerKind::AuthProgress));
}

#[test]
fn confirming_an_empty_picker_does_nothing() {
    let mut state = AppState::new();
    assert!(names(&confirm_login_provider(&mut state)).is_empty());
    assert!(names(&confirm_login_method(&mut state)).is_empty());
    assert!(names(&confirm_logout(&mut state)).is_empty());
    assert_eq!(state.frontend.scope_stack.picker_kind(), None);
}

#[test]
fn enter_submits_a_pasted_code() {
    let mut state = AppState::new();
    state.auth.begin(AuthProviderId::OpenAiCodex, LoginMethod::Browser);
    assert!(names(&confirm_auth_progress(&mut state)).is_empty());
    for c in "abc#xyz".chars() {
        state.frontend.auth_progress_picker.insert_char(c);
    }
    let result = confirm_auth_progress(&mut state);
    match &result.commands[..] {
        [AuthCommand::SubmitAuthorizationCode(submit)] => assert_eq!(submit.input, "abc#xyz"),
        _ => panic!("the pasted code must be submitted"),
    }
    assert_eq!(state.frontend.auth_progress_picker.filter(), "");
}

#[test]
fn enter_retries_after_a_failure() {
    let mut state = AppState::new();
    state.auth.begin(AuthProviderId::OpenAiCodex, LoginMethod::DeviceCode);
    state.auth.fail("Authorization was denied.".to_owned());
    let result = confirm_auth_progress(&mut state);
    match &result.commands[..] {
        [AuthCommand::StartLogin(start)] => assert_eq!(start.method, LoginMethod::DeviceCode),
        _ => panic!("a failure must be retried"),
    }
}

#[test]
fn logging_out_closes_the_picker() {
    let mut state = AppState::new();
    handle_open_logout_picker(&mut state);
    state.frontend.auth_logout_picker.set_items(vec![provider_entry(true)]);
    let result = confirm_logout(&mut state);
    assert_eq!(names(&result), vec!["Logout".to_owned()]);
    assert_eq!(state.frontend.scope_stack.picker_kind(), None);
}

#[test]
fn cancelling_an_active_attempt_closes_everything() {
    let mut state = AppState::new();
    handle_open_login_picker(&mut state);
    state.auth.begin(AuthProviderId::OpenAiCodex, LoginMethod::Browser);
    let result = handle_cancel_authentication(&mut state);
    assert_eq!(names(&result), vec!["CancelLogin".to_owned()]);
    assert!(!state.auth.is_active());
    assert!(!state.frontend.scope_stack.is_picker());
    assert!(names(&handle_cancel_authentication(&mut state)).is_empty());
}

#[test]
fn only_the_four_modals_are_auth_pickers() {
    assert!(is_auth_picker(PickerKind::AuthLogin));
    assert!(is_auth_picker(PickerKind::AuthMethod));
    assert!(is_auth_picker(PickerKind::AuthProgress));
    assert!(is_auth_picker(PickerKind::AuthLogout));
    assert!(!is_auth_picker(PickerKind::Session));
    assert!(!is_auth_picker(PickerKind::Provider));
}

#[test]
fn closing_auth_screens_keeps_other_scopes() {
    let mut stack = ScopeStack::new();
    stack.push(FocusScope::Input);
    stack.push(FocusScope::Picker { kind: PickerKind::AuthLogin });
    stack.push(FocusScope::Picker { kind: PickerKind::AuthMethod });
    stack.close_auth_screens();
    assert_eq!(stack.pop(), Some(FocusScope::Input));
    assert_eq!(stack.pop(), None);
}

// The actor.

#[test]
fn a_superseded_attempt_is_ignored() {
    let mut actor = AuthActor::new();
    let mut state = AppState::new();
    let (first, replaced) = actor.start_login(&mut state, AuthProviderId::OpenAiCodex, LoginMethod::Browser);
    assert_eq!(replaced, None);
    let (second, replaced) = actor.start_login(&mut state, AuthProviderId::OpenAiCodex, LoginMethod::DeviceCode);
    assert_eq!(replaced, Some(first));
    assert_ne!(first, second);
    actor.progress_reported(&mut state, first, AuthPhase::Working { message: "stale".to_owned() });
    assert_eq!(state.auth.flow().map(|f| f.phase.clone()), Some(AuthPhase::Starting));
    let outcome = actor.attempt_finished(&mut state, first, AuthProviderId::OpenAiCodex, None);
    assert_eq!(outcome, FinishOutcome::Ignored);
    assert!(actor.is_current_attempt(second));
}

#[test]
fn a_cancelled_attempt_cannot_sign_in() {
    let mut actor = AuthActor::new();
    let mut state = AppState::new();
    let (attempt, _) = actor.start_login(&mut state, AuthProviderId::OpenAiCodex, LoginMethod::Browser);
    assert_eq!(actor.cancel_login(&mut state), Some(attempt));
    assert!(!state.auth.is_active());
    let outcome = actor.attempt_finished(&mut state, attempt, AuthProviderId::OpenAiCodex, None);
    assert_eq!(outcome, FinishOutcome::Ignored);
}

#[test]
fn a_successful_attempt_signs_in_and_closes_the_modal() {
    let mut actor = AuthActor::new();
    let mut state = AppState::new();
    handle_open_login_picker(&mut state);
    let (attempt, _) = actor.start_login(&mut state, AuthProviderId::OpenAiCodex, LoginMethod::Browser);
    match actor.attempt_finished(&mut state, attempt, AuthProviderId::OpenAiCodex, None) {
        FinishOutcome::SignedIn { changed, notice } => {
            assert!(changed.is_configured);
            assert_eq!(notice, signed_in_notice(AuthProviderId::OpenAiCodex));
        }
        other => panic!("unexpected outcome {other:?}"),
    }
    assert!(!state.auth.is_active());
    assert!(!state.frontend.scope_stack.is_picker());
    assert_eq!(
        signed_in_notice(AuthProviderId::OpenAiCodex),
        "Signed in to OpenAI Codex. Open the model picker to select a OpenAI Codex model."
    );
}

#[test]
fn a_failed_attempt_shows_its_failure() {
    let mut actor = AuthActor::new();
    let mut state = AppState::new();
    let (attempt, _) = actor.start_login(&mut state, AuthProviderId::OpenAiCodex, LoginMethod::Browser);
    let outcome = actor.attempt_finished(
        &mut state,
        attempt,
        AuthProviderId::OpenAiCodex,
        Some("Authorization was denied.".to_owned()),
    );
    assert_eq!(outcome, FinishOutcome::Failed);
    assert_eq!(state.auth.failure_message(), Some("Authorization was denied."));
}

#[test]
fn only_one_code_is_taken_per_attempt() {
    let mut actor = AuthActor::new();
    let mut state = AppState::new();
    assert_eq!(actor.take_code_slot(), None);
    let (attempt, _) = actor.start_login(&mut state, AuthProviderId::OpenAiCodex, LoginMethod::Browser);
    assert_eq!(actor.take_code_slot(), Some(attempt));
    assert_eq!(actor.take_code_slot(), None);
}

#[test]
fn logout_reports_a_change_only_when_something_was_removed() {
    assert_eq!(logout_finished(AuthProviderId::OpenAiCodex, false), None);
    let (changed, notice) = logout_finished(AuthProviderId::OpenAiCodex, true).expect("removed");
    assert!(!changed.is_configured);
    assert_eq!(notice, "Logged out of OpenAI Codex.");
}

#[test]
fn a_login_that_finishes_after_logout_restores_presence() {
    let mut service = registered_service();
    let mut document = CredentialDocument::new();
    let credential = OAuthCredential {
        access_token: "a".to_owned(),
        refresh_token: "r".to_owned(),
        expires_at_ms: i64::MAX,
        account_id: "acct".to_owned(),
    };
    service
        .complete_login(&mut document, AuthProviderId::OpenAiCodex, Ok(credential), false)
        .expect("login");
    assert_eq!(logout_picker_entries(&service).len(), 1);
    service.logout(&mut document, AuthProviderId::OpenAiCodex);
    assert!(logout_picker_entries(&service).is_empty());
}

#[test]
fn rows_read_as_marker_name_and_status() {
    assert_eq!(provider_entry(true).row_text(), "\u{25cf} OpenAI Codex  (stored)");
    assert_eq!(provider_entry(false).row_text(), "  OpenAI Codex  (unconfigured)");
    let device = AuthMethodEntry::new(AuthProviderId::OpenAiCodex, LoginMethod::DeviceCode);
    assert_eq!(device.row_text(), "  Device code login  enter a code from another browser or device");
}
