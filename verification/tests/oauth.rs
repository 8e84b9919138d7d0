use base64::Engine as _;

use jinn::codex::account::account_id_from_access_token;
use jinn::codex::authorization_input::{parse, AuthorizationInput};
use jinn::codex::endpoints::{CodexAuthEndpoints, CLIENT_ID, DEFAULT_REDIRECT_URI};
use jinn::codex::flow::{
    authorization_url, browser_instructions, device_authorization_outcome, device_error_code,
    device_poll_outcome, device_schedule, exchange_form, exchange_outcome,
    login_failure_from_device_failure, map_callback_error, refresh_form, refresh_outcome,
    verified_code, IntervalField, TokenResponse, DEVICE_CODE_LIFETIME_MS,
};
use jinn::credential::OAuthCredential;
use jinn::failures::{LoginFailure, RefreshFailure};
use jinn::oauth::callback::{callback_reply, http_response, CallbackError};
use jinn::oauth::device_code::{
    DeviceCodeFailure, DeviceCodePoll, DeviceCodePoller, DeviceCodeSchedule, PollStep,
};
use jinn::oauth::pkce::{challenge_for, generate, hex_encode, random_state};

fn token_with_payload(payload: &str) -> String {
    let engine = base64::engine::general_purpose::URL_SAFE_NO_PAD;
    format!("{}.{}.sig", engine.encode(b"{\"alg\":\"none\"}"), engine.encode(payload.as_bytes()))
}

fn account_token(account: &str) -> String {
    token_with_payload(&format!(
        "{{\"https://api.openai.com/auth\":{{\"chatgpt_account_id\":\"{account}\"}}}}"
    ))
}

fn token_body(access: &str, refresh: &str, expires_in: i64) -> String {
    format!("{{\"access_token\":\"{access}\",\"refresh_token\":\"{refresh}\",\"expires_in\":{expires_in}}}")
}

fn poller(interval_ms: u64, expires_in_ms: u64) -> DeviceCodePoller {
    DeviceCodePoller::new(DeviceCodeSchedule { interval_ms, expires_in_ms })
}

// PKCE.

#[test]
fn challenge_matches_the_known_s256_vector() {
    let challenge = challenge_for("dBjftJeZ4CVP-mB92K27uhbUJU1p1r_wW1gFWFOEjXk");
    assert_eq!(challenge, "E9Melhoa2OwvFrEMTJguCHaoeK1t8URWbuGJSstw-cM");
}

#[test]
fn generated_challenge_is_derived_from_its_verifier() {
    let pkce = generate();
    assert_eq!(pkce.verifier.len(), 43);
    assert_eq!(challenge_for(&pkce.verifier), pkce.challenge);
}

#[test]
fn two_generated_verifiers_differ() {
    assert_ne!(generate().verifier, generate().verifier);
}

#[test]
fn generated_state_values_differ() {
    let state = random_state();
    assert_eq!(state.len(), 32);
    assert!(state.chars().all(|c| c.is_ascii_hexdigit() && !c.is_ascii_uppercase()));
    assert_ne!(random_state(), random_state());
}

#[test]
fn hex_encoding_is_lowercase_and_two_digits_per_byte() {
    assert_eq!(hex_encode(&[0x00, 0x0f, 0xa5, 0xff]), "000fa5ff");
    assert_eq!(hex_encode(&[]), "");
}

// Pasted authorization input.

#[test]
fn a_full_redirect_url_yields_its_code_and_state() {
    let parsed = parse("http://localhost:1455/auth/callback?code=abc123&state=xyz");
    assert_eq!(
        parsed,
        AuthorizationInput { code: Some("abc123".to_owned()), state: Some("xyz".to_owned()) }
    );
}

#[test]
fn a_bare_query_string_yields_its_code_and_state() {
    let parsed = parse("code=abc123&state=xyz");
    assert_eq!(
        parsed,
        AuthorizationInput { code: Some("abc123".to_owned()), state: Some("xyz".to_owned()) }
    );
}

#[test]
fn the_hash_separated_form_yields_its_code_and_state() {
    let parsed = parse("abc123#xyz");
    assert_eq!(
        parsed,
        AuthorizationInput { code: Some("abc123".to_owned()), state: Some("xyz".to_owned()) }
    );
}

#[test]
fn a_bare_code_is_taken_as_the_code() {
    let parsed = parse("  abc123  ");
    assert_eq!(parsed, AuthorizationInput { code: Some("abc123".to_owned()), state: None });
}

#[test]
fn empty_input_yields_nothing() {
    assert_eq!(parse("   "), AuthorizationInput::default());
}

#[test]
fn a_pasted_result_from_another_attempt_is_rejected() {
    assert_eq!(verified_code("abc#other", "mine"), Err(LoginFailure::Provider));
    assert_eq!(verified_code("abc#mine", "mine"), Ok("abc".to_owned()));
    assert_eq!(verified_code("abc", "mine"), Ok("abc".to_owned()));
    assert_eq!(verified_code("   ", "mine"), Err(LoginFailure::Provider));
}

// Account id.

#[test]
fn account_id_is_read_from_the_auth_claim() {
    assert_eq!(account_id_from_access_token(&account_token("acct-123")).as_deref(), Some("acct-123"));
}

#[test]
fn a_token_without_the_claim_yields_nothing() {
    assert!(account_id_from_access_token(&token_with_payload("{\"sub\":\"user-1\"}")).is_none());
    assert!(account_id_from_access_token(&account_token("")).is_none());
}

#[test]
fn an_opaque_token_yields_nothing() {
    assert!(account_id_from_access_token("not-a-jwt").is_none());
    assert!(account_id_from_access_token("a.b.c.d").is_none());
}

// Endpoints and the browser flow.

#[test]
fn endpoints_hang_off_the_auth_host() {
    let endpoints = CodexAuthEndpoints::with_auth_base_url("https://auth.example/");
    assert_eq!(endpoints.token_url(), "https://auth.example/oauth/token");
    assert_eq!(endpoints.authorize_url(), "https://auth.example/oauth/authorize");
    assert_eq!(
        endpoints.device_user_code_url(),
        "https://auth.example/api/accounts/deviceauth/usercode"
    );
    assert_eq!(endpoints.device_token_url(), "https://auth.example/api/accounts/deviceauth/token");
    assert_eq!(endpoints.device_verification_uri(), "https://auth.example/codex/device");
    assert_eq!(endpoints.device_redirect_uri(), "https://auth.example/deviceauth/callback");
    assert_eq!(endpoints.redirect_uri, DEFAULT_REDIRECT_URI);
    assert_eq!(CodexAuthEndpoints::default().token_url(), "https://auth.openai.com/oauth/token");
}

#[test]
fn browser_login_publishes_the_authorization_url() {
    let endpoints = CodexAuthEndpoints::with_auth_base_url("https://auth.example");
    let url = authorization_url(&endpoints, "chal", "st");
    assert!(url.starts_with("https://auth.example/oauth/authorize?response_type=code&client_id="));
    assert!(url.contains(CLIENT_ID));
    assert!(url.contains("redirect_uri=http%3A%2F%2Flocalhost%3A1455%2Fauth%2Fcallback"));
    assert!(url.contains("scope=openid+profile+email+offline_access"));
    assert!(url.contains("code_challenge=chal&code_challenge_method=S256&state=st"));
    assert!(url.ends_with("codex_cli_simplified_flow=true&originator=jinn"));
}

#[test]
fn a_failed_browser_launch_still_offers_a_usable_login() {
    assert_eq!(
        browser_instructions(false, true),
        "Open this URL in a browser to continue. jinn will detect the result automatically, or you can paste the authorization code or redirect URL below."
    );
    assert_eq!(
        browser_instructions(true, false),
        "A browser window should have opened. Paste the authorization code or redirect URL below when you are done."
    );
}

#[test]
fn callback_errors_map_to_login_failures() {
    assert_eq!(map_callback_error(CallbackError::Cancelled), LoginFailure::Cancelled);
    assert_eq!(map_callback_error(CallbackError::Bind), LoginFailure::Provider);
    assert_eq!(map_callback_error(CallbackError::Accept), LoginFailure::Provider);
}

// The local callback listener.

#[test]
fn a_matching_callback_yields_its_authorization_code() {
    let reply = callback_reply("GET /auth/callback?code=the-code&state=s1 HTTP/1.1", "/auth/callback", "s1");
    assert_eq!(reply.status, 200);
    assert_eq!(reply.code.as_deref(), Some("the-code"));
    assert!(reply.body.contains("Authentication complete"));
}

#[test]
fn a_state_mismatch_does_not_complete_the_login() {
    let reply = callback_reply("GET /auth/callback?code=c&state=other HTTP/1.1", "/auth/callback", "s1");
    assert_eq!(reply.status, 400);
    assert_eq!(reply.code, None);
    assert!(reply.body.contains("Authorization state mismatch."));
}

#[test]
fn an_unexpected_path_is_not_found() {
    let reply = callback_reply("GET /favicon.ico HTTP/1.1", "/auth/callback", "s1");
    assert_eq!(reply.status, 404);
    assert_eq!(reply.code, None);
}

#[test]
fn a_malformed_request_or_missing_code_is_rejected() {
    let reply = callback_reply("garbage", "/auth/callback", "s1");
    assert_eq!(reply.status, 400);
    assert!(reply.body.contains("Malformed request."));
    let reply = callback_reply("GET /auth/callback?state=s1 HTTP/1.1", "/auth/callback", "s1");
    assert_eq!(reply.status, 400);
    assert!(reply.body.contains("Missing authorization code."));
    let reply = callback_reply("GET /auth/callback?code=&state=s1 HTTP/1.1", "/auth/callback", "s1");
    assert_eq!(reply.code, None);
}

#[test]
fn responses_carry_their_length_and_close() {
    let response = http_response(404, "hé");
    assert_eq!(
        response,
        "HTTP/1.1 404 Not Found\r\nContent-Type: text/html; charset=utf-8\r\nContent-Length: 3\r\nConnection: close\r\n\r\nhé"
    );
    assert!(http_response(200, "").starts_with("HTTP/1.1 200 OK\r\n"));
    assert!(http_response(400, "").starts_with("HTTP/1.1 400 Bad Request\r\n"));
}

// The device-code polling schedule.

#[test]
fn a_completed_authorization_returns_its_value() {
    let mut p = poller(1000, 60_000);
    assert_eq!(p.before_poll(false, 0), None);
    match p.after_poll(DeviceCodePoll::Complete("done")) {
        PollStep::Finished(Ok(value)) => assert_eq!(value, "done"),
        other => panic!("unexpected step {other:?}"),
    }
}

#[test]
fn pending_responses_are_retried_until_completion() {
    let mut p = poller(2000, 60_000);
    let mut polls = 0;
    loop {
        assert_eq!(p.before_poll(false, 0), None);
        polls += 1;
        let outcome = if polls < 3 { DeviceCodePoll::Pending } else { DeviceCodePoll::Complete(7) };
        match p.after_poll(outcome) {
            PollStep::Wait(ms) => {
                assert_eq!(ms, 2000);
                assert_eq!(p.after_wait(ms, false), None);
            }
            PollStep::Finished(result) => {
                assert_eq!(result, Ok(7));
                break;
            }
        }
    }
    assert_eq!(polls, 3);
    assert_eq!(p.remaining_ms, 56_000);
}

#[test]
fn a_slow_down_response_lengthens_the_interval() {
    let mut p = poller(1000, 60_000);
    match p.after_poll::<()>(DeviceCodePoll::SlowDown { interval_seconds: None }) {
        PollStep::Wait(ms) => assert_eq!(ms, 6000),
        other => panic!("unexpected step {other:?}"),
    }
    assert_eq!(p.interval_ms, 6000);
}

#[test]
fn a_server_supplied_interval_replaces_the_client_back_off() {
    let mut p = poller(1000, 60_000);
    match p.after_poll::<()>(DeviceCodePoll::SlowDown { interval_seconds: Some(9) }) {
        PollStep::Wait(ms) => assert_eq!(ms, 9000),
        other => panic!("unexpected step {other:?}"),
    }
    let mut p = poller(5000, 60_000);
    p.after_poll::<()>(DeviceCodePoll::SlowDown { interval_seconds: Some(0) });
    assert_eq!(p.interval_ms, 1000);
}

#[test]
fn a_denied_authorization_reports_denial() {
    let mut p = poller(1000, 60_000);
    match p.after_poll::<()>(DeviceCodePoll::Failed(DeviceCodeFailure::Denied)) {
        PollStep::Finished(Err(failure)) => assert_eq!(failure, DeviceCodeFailure::Denied),
        other => panic!("unexpected step {other:?}"),
    }
}

#[test]
fn polling_past_the_deadline_reports_expiry() {
    let mut p = poller(1000, 3000);
    assert_eq!(p.before_poll(false, 3000), Some(DeviceCodeFailure::Expired));
    let mut p = poller(10_000, 3000);
    match p.after_poll::<()>(DeviceCodePoll::Pending) {
        PollStep::Wait(ms) => assert_eq!(ms, 3000),
        other => panic!("unexpected step {other:?}"),
    }
    assert_eq!(p.after_wait(3000, false), None);
    assert_eq!(p.before_poll(false, 0), Some(DeviceCodeFailure::Expired));
    assert_eq!(p.poll_timed_out(), DeviceCodeFailure::Expired);
}

#[test]
fn cancelling_stops_the_polling_loop() {
    let mut p = poller(1000, 60_000);
    assert_eq!(p.before_poll(true, 0), Some(DeviceCodeFailure::Cancelled));
    assert_eq!(p.after_wait(500, true), Some(DeviceCodeFailure::Cancelled));
}

#[test]
fn a_tiny_interval_is_raised_to_the_minimum() {
    let p = poller(10, 60_000);
    assert_eq!(p.interval_ms, 1000);
    assert_eq!(p.poll_deadline_ms(), 60_000);
}

// Device-code replies.

#[test]
fn device_code_login_publishes_the_verification_code() {
    let body = b"{\"device_auth_id\":\"dev-1\",\"user_code\":\"ABCD-1234\",\"interval\":\"5\"}";
    let device = device_authorization_outcome(200, body).expect("authorization starts");
    assert_eq!(device.device_auth_id, "dev-1");
    assert_eq!(device.user_code, "ABCD-1234");
    assert_eq!(device.interval_seconds, 5);
    let schedule = device_schedule(&device);
    assert_eq!(schedule.interval_ms, 5000);
    assert_eq!(schedule.expires_in_ms, DEVICE_CODE_LIFETIME_MS);
}

#[test]
fn an_unavailable_device_endpoint_reports_a_provider_error() {
    assert!(matches!(device_authorization_outcome(503, b"{}"), Err(LoginFailure::Provider)));
    let missing = b"{\"device_auth_id\":\"dev-1\",\"interval\":5}";
    assert!(matches!(device_authorization_outcome(200, missing), Err(LoginFailure::Provider)));
    let empty = b"{\"device_auth_id\":\"\",\"user_code\":\"X\",\"interval\":5}";
    assert!(matches!(device_authorization_outcome(200, empty), Err(LoginFailure::Provider)));
}

#[test]
fn interval_fields_accept_numbers_and_numeric_text() {
    assert_eq!(IntervalField::Seconds(7).as_seconds(), Some(7));
    assert_eq!(IntervalField::Text(" 12 ".to_owned()).as_seconds(), Some(12));
    assert_eq!(IntervalField::Text("soon".to_owned()).as_seconds(), None);
    assert_eq!(IntervalField::Text(String::new()).as_seconds(), None);
}

#[test]
fn device_code_login_completes_after_the_user_authorizes() {
    let body = b"{\"authorization_code\":\"auth-code\",\"code_verifier\":\"ver\"}";
    match device_poll_outcome(200, body) {
        DeviceCodePoll::Complete(code) => {
            assert_eq!(code.authorization_code, "auth-code");
            assert_eq!(code.code_verifier, "ver");
        }
        other => panic!("unexpected outcome {other:?}"),
    }
    match device_poll_outcome(200, b"{\"authorization_code\":\"auth-code\"}") {
        DeviceCodePoll::Failed(DeviceCodeFailure::Provider(m)) => {
            assert_eq!(m, "device token response was missing required fields")
        }
        other => panic!("unexpected outcome {other:?}"),
    }
}

#[test]
fn device_poll_replies_are_classified() {
    assert!(matches!(device_poll_outcome(403, b""), DeviceCodePoll::Pending));
    assert!(matches!(device_poll_outcome(404, b""), DeviceCodePoll::Pending));
    assert!(matches!(
        device_poll_outcome(400, b"{\"error\":\"authorization_pending\"}"),
        DeviceCodePoll::Pending
    ));
    assert!(matches!(
        device_poll_outcome(400, b"{\"error\":{\"code\":\"deviceauth_authorization_pending\"}}"),
        DeviceCodePoll::Pending
    ));
    assert!(matches!(
        device_poll_outcome(400, b"{\"error\":\"slow_down\"}"),
        DeviceCodePoll::SlowDown { interval_seconds: None }
    ));
    assert!(matches!(
        device_poll_outcome(400, b"{\"error\":\"access_denied\"}"),
        DeviceCodePoll::Failed(DeviceCodeFailure::Denied)
    ));
    assert!(matches!(
        device_poll_outcome(400, b"{\"error\":\"expired_token\"}"),
        DeviceCodePoll::Failed(DeviceCodeFailure::Expired)
    ));
    match device_poll_outcome(500, b"oops") {
        DeviceCodePoll::Failed(DeviceCodeFailure::Provider(m)) => {
            assert_eq!(m, "device authorization failed with HTTP 500")
        }
        other => panic!("unexpected outcome {other:?}"),
    }
    assert_eq!(device_error_code(b"{\"error\":{\"code\":\"x\"}}").as_deref(), Some("x"));
    assert_eq!(device_error_code(b"{}"), None);
}

#[test]
fn a_denied_device_authorization_reports_denial() {
    assert_eq!(login_failure_from_device_failure(DeviceCodeFailure::Denied), LoginFailure::Denied);
    assert_eq!(login_failure_from_device_failure(DeviceCodeFailure::Expired), LoginFailure::TimedOut);
    assert_eq!(
        login_failure_from_device_failure(DeviceCodeFailure::Cancelled),
        LoginFailure::Cancelled
    );
    assert_eq!(
        login_failure_from_device_failure(DeviceCodeFailure::Provider("x".to_owned())),
        LoginFailure::Provider
    );
}

// Token exchange and refresh.

#[test]
fn token_forms_carry_the_grant() {
    assert_eq!(
        exchange_form("c 1", "v", "http://localhost:1455/auth/callback"),
        format!("grant_type=authorization_code&client_id={CLIENT_ID}&code=c+1&code_verifier=v&redirect_uri=http%3A%2F%2Flocalhost%3A1455%2Fauth%2Fcallback")
    );
    let credential = OAuthCredential {
        access_token: "a".to_owned(),
        refresh_token: "r/1".to_owned(),
        expires_at_ms: 0,
        account_id: "acct".to_owned(),
    };
    assert_eq!(
        refresh_form(&credential),
        format!("grant_type=refresh_token&client_id={CLIENT_ID}&refresh_token=r%2F1")
    );
}

#[test]
fn a_token_reply_becomes_a_credential() {
    let access = account_token("acct-9");
    let reply = TokenResponse::from_json(token_body(&access, "refresh", 3600).as_bytes());
    let credential = reply.credential_at(1_000).expect("usable reply");
    assert_eq!(credential.access_token, access);
    assert_eq!(credential.refresh_token, "refresh");
    assert_eq!(credential.expires_at_ms, 3_601_000);
    assert_eq!(credential.account_id, "acct-9");
}

#[test]
fn browser_login_completes_through_the_local_callback() {
    let access = account_token("acct-1");
    let credential = exchange_outcome(200, token_body(&access, "refresh", 3600).as_bytes())
        .expect("exchange succeeds");
    assert_eq!(credential.account_id, "acct-1");
    assert_eq!(credential.refresh_token, "refresh");
    assert!(!credential.is_expired());
}

#[test]
fn a_token_response_without_an_account_claim_is_rejected() {
    let access = token_with_payload("{\"sub\":\"u\"}");
    assert!(matches!(
        exchange_outcome(200, token_body(&access, "refresh", 3600).as_bytes()),
        Err(LoginFailure::Provider)
    ));
    let access = account_token("acct");
    assert!(matches!(
        exchange_outcome(200, token_body(&access, "", 3600).as_bytes()),
        Err(LoginFailure::Provider)
    ));
    assert!(matches!(
        exchange_outcome(200, token_body(&access, "refresh", 0).as_bytes()),
        Err(LoginFailure::Provider)
    ));
    assert!(matches!(exchange_outcome(500, b"{}"), Err(LoginFailure::Provider)));
}

#[test]
fn refresh_returns_the_rotated_credential() {
    let access = account_token("acct-2");
    let credential = refresh_outcome(200, token_body(&access, "rotated", 60).as_bytes())
        .expect("refresh succeeds");
    assert_eq!(credential.refresh_token, "rotated");
}

#[test]
fn a_rejected_refresh_token_reports_rejection() {
    for status in [400, 401, 403] {
        assert!(matches!(refresh_outcome(status, b"{}"), Err(RefreshFailure::Rejected)));
    }
}

#[test]
fn a_server_error_during_refresh_is_not_treated_as_a_logout() {
    assert!(matches!(refresh_outcome(500, b"{}"), Err(RefreshFailure::Provider)));
    assert!(matches!(refresh_outcome(200, b"{}"), Err(RefreshFailure::Provider)));
}
