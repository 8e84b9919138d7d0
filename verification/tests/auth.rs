use jinn::access_token::{complete_refresh, plan_access_token_at, plan_locked_at, TokenPlan};
use jinn::auth_service::{AuthService, CredentialPresence, ProviderRegistration};
use jinn::credential::{OAuthCredential, StoredCredential, EXPIRY_SKEW_MS};
use jinn::credential_store::{
    document_is_blank, CredentialDocument, FilesystemCredentialStore, InMemoryCredentialStore,
};
use jinn::failures::{
    describe_failure, map_login_failure, map_refresh_failure, AccessTokenError,
    AuthOperationFailure, CredentialStoreError, LoginFailure, RefreshFailure,
};
use jinn::login_method::LoginMethod;
use jinn::provider_id::AuthProviderId;

const NOW: i64 = 1_700_000_000_000;

fn credential(access: &str, expires_at_ms: i64) -> OAuthCredential {
    OAuthCredential {
        access_token: access.to_owned(),
        refresh_token: format!("refresh-{access}"),
        expires_at_ms,
        account_id: "acct-1".to_owned(),
    }
}

fn live(access: &str) -> OAuthCredential {
    credential(access, NOW + 3_600_000)
}

fn codex_service() -> AuthService {
    AuthService::new(vec![ProviderRegistration {
        id: AuthProviderId::OpenAiCodex,
        methods: vec![LoginMethod::Browser, LoginMethod::DeviceCode],
    }])
}

fn stored_access(document: &CredentialDocument) -> Option<String> {
    document
        .read_provider(AuthProviderId::OpenAiCodex)
        .map(|stored| stored.as_oauth().access_token.clone())
}

// Provider identity and login methods.

#[test]
fn provider_wire_id_round_trips() {
    for provider in AuthProviderId::ALL {
        assert_eq!(AuthProviderId::from_wire_id(provider.as_str()), Ok(provider));
    }
    assert_eq!(AuthProviderId::OpenAiCodex.as_str(), "openai-codex");
    assert_eq!(AuthProviderId::OpenAiCodex.to_string(), "openai-codex");
    assert_eq!(AuthProviderId::OpenAiCodex.display_name(), "OpenAI Codex");
}

#[test]
fn an_unknown_wire_id_is_rejected() {
    let err = AuthProviderId::from_wire_id("anthropic").expect_err("unknown provider");
    assert_eq!(err.message(), "unknown subscription auth provider");
    assert!(AuthProviderId::from_wire_id("").is_err());
    assert!(AuthProviderId::from_wire_id("OpenAI-Codex").is_err());
}

#[test]
fn login_methods_have_stable_wire_names_and_labels() {
    assert_eq!(LoginMethod::Browser.as_str(), "browser");
    assert_eq!(LoginMethod::DeviceCode.as_str(), "device_code");
    assert_eq!(LoginMethod::Browser.label(), "Browser login");
    assert_eq!(LoginMethod::DeviceCode.label(), "Device code login");
    assert_eq!(LoginMethod::DeviceCode.to_string(), "device_code");
}

// Expiry.

#[test]
fn a_credential_expires_five_minutes_early() {
    let c = credential("a", NOW + EXPIRY_SKEW_MS + 1);
    assert!(!c.is_expired_at(NOW));
    let c = credential("a", NOW + EXPIRY_SKEW_MS);
    assert!(c.is_expired_at(NOW));
    let c = credential("a", NOW - 1);
    assert!(c.is_expired_at(NOW));
}

#[test]
fn expiry_near_the_minimum_timestamp_does_not_overflow() {
    let c = credential("a", i64::MIN);
    assert!(c.is_expired_at(i64::MIN));
}

// The credential document.

#[test]
fn reading_an_absent_provider_yields_nothing() {
    let store = InMemoryCredentialStore::new();
    assert!(store.read(AuthProviderId::OpenAiCodex).expect("read").is_none());
}

#[test]
fn writing_again_replaces_the_previous_credential() {
    let mut store = InMemoryCredentialStore::new();
    store
        .write(AuthProviderId::OpenAiCodex, StoredCredential::Oauth(live("first")))
        .expect("write");
    store
        .write(AuthProviderId::OpenAiCodex, StoredCredential::Oauth(live("second")))
        .expect("write");
    let stored = store.read(AuthProviderId::OpenAiCodex).expect("read").expect("present");
    assert_eq!(stored.as_oauth().access_token, "second");
}

#[test]
fn delete_removes_the_stored_credential() {
    let mut store = InMemoryCredentialStore::new();
    store
        .write(AuthProviderId::OpenAiCodex, StoredCredential::Oauth(live("a")))
        .expect("write");
    store.delete(AuthProviderId::OpenAiCodex).expect("delete");
    assert!(store.read(AuthProviderId::OpenAiCodex).expect("read").is_none());
}

#[test]
fn deleting_an_absent_credential_succeeds() {
    let mut store = InMemoryCredentialStore::new();
    assert_eq!(store.delete(AuthProviderId::OpenAiCodex), Ok(()));
    assert_eq!(store.list(), Ok(Vec::new()));
}

#[test]
fn list_reports_providers_that_have_credentials() {
    let mut store = InMemoryCredentialStore::new();
    assert_eq!(store.list(), Ok(Vec::new()));
    store
        .write(AuthProviderId::OpenAiCodex, StoredCredential::Oauth(live("a")))
        .expect("write");
    assert_eq!(store.list(), Ok(vec![AuthProviderId::OpenAiCodex]));
    assert_eq!(store.name(), "in-memory");
}

#[test]
fn document_entries_come_back_sorted_by_key() {
    let mut document = CredentialDocument::new();
    document.insert("zeta".to_owned(), StoredCredential::Oauth(live("z")));
    document.insert("alpha".to_owned(), StoredCredential::Oauth(live("a")));
    document.insert("mid".to_owned(), StoredCredential::Oauth(live("m")));
    assert_eq!(document.keys(), vec!["alpha".to_owned(), "mid".to_owned(), "zeta".to_owned()]);
    let removed = document.remove("mid").expect("present");
    assert_eq!(removed.as_oauth().access_token, "m");
    assert!(document.remove("mid").is_none());
    assert_eq!(document.keys(), vec!["alpha".to_owned(), "zeta".to_owned()]);
}

#[test]
fn unknown_keys_in_the_document_are_kept_but_not_listed() {
    let pairs = vec![
        ("other-provider".to_owned(), StoredCredential::Oauth(live("x"))),
        ("openai-codex".to_owned(), StoredCredential::Oauth(live("c"))),
    ];
    let mut document = CredentialDocument::from_entries(&pairs);
    assert_eq!(document.stored_providers(), vec![AuthProviderId::OpenAiCodex]);
    assert!(document.delete_provider(AuthProviderId::OpenAiCodex));
    assert!(!document.delete_provider(AuthProviderId::OpenAiCodex));
    assert_eq!(document.stored_providers(), Vec::new());
    assert_eq!(document.keys(), vec!["other-provider".to_owned()]);
}

#[test]
fn a_later_duplicate_entry_wins() {
    let pairs = vec![
        ("openai-codex".to_owned(), StoredCredential::Oauth(live("old"))),
        ("openai-codex".to_owned(), StoredCredential::Oauth(live("new"))),
    ];
    let document = CredentialDocument::from_entries(&pairs);
    assert_eq!(stored_access(&document).as_deref(), Some("new"));
    assert_eq!(document.entries().len(), 1);
}

#[test]
fn blank_file_contents_read_as_an_empty_store() {
    assert!(document_is_blank(""));
    assert!(document_is_blank("  \n\t "));
    assert!(!document_is_blank("{}"));
}

#[test]
fn the_filesystem_store_keeps_its_path() {
    let store = FilesystemCredentialStore::new("/tmp/auth.json".to_owned());
    assert_eq!(store.path, "/tmp/auth.json");
    assert_eq!(store.name(), "filesystem");
}

// Access tokens.

#[test]
fn a_live_credential_is_used_without_refreshing() {
    let stored = Some(StoredCredential::Oauth(live("tok")));
    match plan_access_token_at(Ok(stored), NOW) {
        Ok(TokenPlan::Ready(token)) => {
            assert_eq!(token.token, "tok");
            assert_eq!(token.account_id, "acct-1");
        }
        _ => panic!("a live credential must be used as is"),
    }
}

#[test]
fn an_expired_credential_is_refreshed() {
    let stale = credential("old", NOW - 1);
    match plan_access_token_at(Ok(Some(StoredCredential::Oauth(stale.clone()))), NOW) {
        Ok(TokenPlan::Refresh(c)) => assert!(c == stale),
        _ => panic!("an expired credential must be refreshed"),
    }
}

#[test]
fn a_missing_credential_reports_that_login_is_needed() {
    assert!(matches!(
        plan_access_token_at(Ok(None), NOW),
        Err(AccessTokenError::NotAuthenticated)
    ));
    assert!(matches!(
        plan_access_token_at(Err(CredentialStoreError), NOW),
        Err(AccessTokenError::Storage)
    ));
}

#[test]
fn a_rotated_credential_is_persisted() {
    let mut document = CredentialDocument::new();
    document.write_provider(AuthProviderId::OpenAiCodex, StoredCredential::Oauth(credential("old", NOW - 1)));
    assert!(matches!(
        plan_locked_at(&document, AuthProviderId::OpenAiCodex, NOW),
        Ok(TokenPlan::Refresh(_))
    ));
    let token = complete_refresh(&mut document, AuthProviderId::OpenAiCodex, Some(Ok(live("new"))))
        .expect("refresh succeeds");
    assert_eq!(token.token, "new");
    assert_eq!(stored_access(&document).as_deref(), Some("new"));
    assert!(matches!(
        plan_locked_at(&document, AuthProviderId::OpenAiCodex, NOW),
        Ok(TokenPlan::Ready(_))
    ));
}

#[test]
fn a_rejected_refresh_leaves_the_stored_credential_alone() {
    let mut document = CredentialDocument::new();
    document.write_provider(AuthProviderId::OpenAiCodex, StoredCredential::Oauth(credential("old", NOW - 1)));
    let result = complete_refresh(
        &mut document,
        AuthProviderId::OpenAiCodex,
        Some(Err(RefreshFailure::Rejected)),
    );
    assert!(matches!(result, Err(AccessTokenError::Expired)));
    assert_eq!(stored_access(&document).as_deref(), Some("old"));
}

#[test]
fn an_unreachable_provider_reports_a_provider_error() {
    let mut document = CredentialDocument::new();
    let result = complete_refresh(
        &mut document,
        AuthProviderId::OpenAiCodex,
        Some(Err(RefreshFailure::Provider)),
    );
    assert!(matches!(result, Err(AccessTokenError::Provider)));
    let result = complete_refresh(&mut document, AuthProviderId::OpenAiCodex, None);
    assert!(matches!(result, Err(AccessTokenError::Provider)));
    assert_eq!(stored_access(&document), None);
}

#[test]
fn a_missing_login_under_the_lock_is_not_authenticated() {
    let document = CredentialDocument::new();
    assert!(matches!(
        plan_locked_at(&document, AuthProviderId::OpenAiCodex, NOW),
        Err(AccessTokenError::NotAuthenticated)
    ));
}

// Failures and their messages.

#[test]
fn failures_map_between_layers() {
    assert_eq!(map_login_failure(LoginFailure::Cancelled), AuthOperationFailure::Cancelled);
    assert_eq!(map_login_failure(LoginFailure::Denied), AuthOperationFailure::Denied);
    assert_eq!(map_login_failure(LoginFailure::TimedOut), AuthOperationFailure::TimedOut);
    assert_eq!(map_login_failure(LoginFailure::Provider), AuthOperationFailure::Provider);
    assert_eq!(map_refresh_failure(RefreshFailure::Rejected), AccessTokenError::Expired);
    assert_eq!(map_refresh_failure(RefreshFailure::Provider), AccessTokenError::Provider);
}

#[test]
fn failures_describe_themselves_to_the_user() {
    assert_eq!(describe_failure(AuthOperationFailure::Denied), "Authorization was denied.");
    assert_eq!(describe_failure(AuthOperationFailure::Cancelled), "Login was cancelled.");
    assert_eq!(describe_failure(AuthOperationFailure::TimedOut), "Authorization timed out.");
    assert_eq!(describe_failure(AuthOperationFailure::Storage), "Credentials could not be saved.");
    assert_eq!(AccessTokenError::NotAuthenticated.message(), "not logged in");
    assert_eq!(LoginFailure::Denied.message(), "authorization was denied");
}

// The authentication service.

#[test]
fn a_successful_login_marks_the_provider_configured() {
    let mut service = codex_service();
    let mut document = CredentialDocument::new();
    assert!(!service.has_credentials(AuthProviderId::OpenAiCodex));
    assert_eq!(service.begin_login(AuthProviderId::OpenAiCodex), Ok(()));
    let result = service.complete_login(&mut document, AuthProviderId::OpenAiCodex, Ok(live("t")), false);
    assert_eq!(result, Ok(()));
    assert!(service.has_credentials(AuthProviderId::OpenAiCodex));
    assert_eq!(stored_access(&document).as_deref(), Some("t"));
}

#[test]
fn a_cancelled_login_leaves_the_previous_account_in_place() {
    let mut service = codex_service();
    let mut document = CredentialDocument::new();
    service
        .complete_login(&mut document, AuthProviderId::OpenAiCodex, Ok(live("first")), false)
        .expect("first login");
    let result = service.complete_login(
        &mut document,
        AuthProviderId::OpenAiCodex,
        Err(LoginFailure::Cancelled),
        true,
    );
    assert_eq!(result, Err(AuthOperationFailure::Cancelled));
    assert_eq!(stored_access(&document).as_deref(), Some("first"));
    assert!(service.has_credentials(AuthProviderId::OpenAiCodex));
}

#[test]
fn a_late_success_after_cancellation_preserves_the_previous_account() {
    let mut service = codex_service();
    let mut document = CredentialDocument::new();
    service
        .complete_login(&mut document, AuthProviderId::OpenAiCodex, Ok(live("first")), false)
        .expect("first login");
    let result = service.complete_login(&mut document, AuthProviderId::OpenAiCodex, Ok(live("late")), true);
    assert_eq!(result, Err(AuthOperationFailure::Cancelled));
    assert_eq!(stored_access(&document).as_deref(), Some("first"));
}

#[test]
fn logout_clears_the_stored_credential() {
    let mut service = codex_service();
    let mut document = CredentialDocument::new();
    service
        .complete_login(&mut document, AuthProviderId::OpenAiCodex, Ok(live("t")), false)
        .expect("login");
    assert!(service.logout(&mut document, AuthProviderId::OpenAiCodex));
    assert!(!service.has_credentials(AuthProviderId::OpenAiCodex));
    assert_eq!(stored_access(&document), None);
    assert!(!service.logout(&mut document, AuthProviderId::OpenAiCodex));
}

#[test]
fn restoring_presence_finds_credentials_from_a_previous_run() {
    let mut service = codex_service();
    assert_eq!(service.refresh_presence(Ok(vec![AuthProviderId::OpenAiCodex])), Ok(()));
    assert!(service.has_credentials(AuthProviderId::OpenAiCodex));
    assert_eq!(service.presence().stored_providers(), vec![AuthProviderId::OpenAiCodex]);
    assert_eq!(
        service.refresh_presence(Err(CredentialStoreError)),
        Err(AuthOperationFailure::Storage)
    );
    assert!(service.has_credentials(AuthProviderId::OpenAiCodex));
    assert_eq!(service.refresh_presence(Ok(Vec::new())), Ok(()));
    assert!(!service.has_credentials(AuthProviderId::OpenAiCodex));
}

#[test]
fn logging_into_an_unregistered_provider_is_rejected() {
    let service = AuthService::new(Vec::new());
    assert_eq!(
        service.begin_login(AuthProviderId::OpenAiCodex),
        Err(AuthOperationFailure::UnknownProvider)
    );
    assert!(service.methods(AuthProviderId::OpenAiCodex).is_empty());
}

#[test]
fn provider_ids_lists_only_registered_providers() {
    assert_eq!(codex_service().provider_ids(), vec![AuthProviderId::OpenAiCodex]);
    assert_eq!(AuthService::new(Vec::new()).provider_ids(), Vec::new());
    assert_eq!(
        codex_service().methods(AuthProviderId::OpenAiCodex),
        vec![LoginMethod::Browser, LoginMethod::DeviceCode]
    );
}

#[test]
fn a_denied_login_reports_denial() {
    let mut service = codex_service();
    let mut document = CredentialDocument::new();
    let result = service.complete_login(
        &mut document,
        AuthProviderId::OpenAiCodex,
        Err(LoginFailure::Denied),
        false,
    );
    assert_eq!(result, Err(AuthOperationFailure::Denied));
    assert_eq!(stored_access(&document), None);
}

#[test]
fn presence_publishes_each_provider_once() {
    let mut presence = CredentialPresence::new();
    presence.publish(vec![AuthProviderId::OpenAiCodex, AuthProviderId::OpenAiCodex]);
    assert_eq!(presence.stored_providers(), vec![AuthProviderId::OpenAiCodex]);
    presence.publish(Vec::new());
    assert!(!presence.has_credentials(AuthProviderId::OpenAiCodex));
}
