use pam_oauth2::claims::{payload_of, preferred_username};
use pam_oauth2::config::{lookup_setting, resolve_config};
use pam_oauth2::engine::{conclude, reconcile, PollSession, Step};
use pam_oauth2::prompt::{login_message, presentation};
use pam_oauth2::reply::{
    classify_token_reply, is_terminal_error, parse_device_authorization, DeviceAuthorization,
    FlowError, PollOutcome, TokenResponse,
};
use pam_oauth2::request::{device_authorization_body, token_poll_body};
use pam_oauth2::text::{has_char, index_of_char, same_text};

const ALICE_TOKEN: &str = "eyJhbGciOiJub25lIn0.eyJwcmVmZXJyZWRfdXNlcm5hbWUiOiJhbGljZSJ9.c2ln";

fn args(list: &[&str]) -> Vec<String> {
    list.iter().map(|s| s.to_string()).collect()
}

fn authorization(expires_in: u64, interval: u64) -> DeviceAuthorization {
    DeviceAuthorization {
        device_code: "dev-123".to_string(),
        user_code: "ABCD-EFGH".to_string(),
        verification_uri: "https://idp.example/device".to_string(),
        verification_uri_complete: "https://idp.example/device?user_code=ABCD-EFGH".to_string(),
        expires_in,
        interval,
    }
}

fn token(id_token: &str) -> TokenResponse {
    TokenResponse {
        access_token: "at".to_string(),
        id_token: id_token.to_string(),
        refresh_token: None,
        token_type: Some("Bearer".to_string()),
        scope: None,
        session_state: None,
    }
}

fn pending() -> PollOutcome {
    classify_token_reply(br#"{"error":"authorization_pending"}"#)
}

#[test]
fn text_helpers() {
    assert_eq!(index_of_char("a=b=c", '=', 0), 1);
    assert_eq!(index_of_char("a=b=c", '=', 2), 3);
    assert_eq!(index_of_char("abc", '=', 0), 3);
    assert!(same_text("héllo", "héllo"));
    assert!(!same_text("hello", "hellO"));
    assert!(!same_text("hell", "hello"));
    assert!(has_char("a\0b", '\0'));
    assert!(!has_char("ab", '\0'));
}

#[test]
fn settings_are_read_by_key() {
    let a = args(&[
        "device_authorize_url=https://idp/device",
        "token_url=https://idp/token?x=1",
        "client_id=pam",
        "debug",
    ]);
    let c = resolve_config(&a).unwrap();
    assert_eq!(c.device_authorize_url, "https://idp/device");
    assert_eq!(c.token_url, "https://idp/token?x=1");
    assert_eq!(c.client_id, "pam");
    assert_eq!(lookup_setting(&a, "debug"), Some(String::new()));
    assert_eq!(lookup_setting(&a, "missing"), None);
}

#[test]
fn later_setting_wins() {
    let a = args(&["client_id=first", "client_id=second"]);
    assert_eq!(lookup_setting(&a, "client_id"), Some("second".to_string()));
}

#[test]
fn missing_setting_is_a_configuration_error() {
    let a = args(&["device_authorize_url=https://idp/device", "client_id=pam"]);
    assert_eq!(resolve_config(&a).err(), Some(FlowError::MissingSetting));
    assert_eq!(resolve_config(&Vec::new()).err(), Some(FlowError::MissingSetting));
}

#[test]
fn device_body_carries_client_and_scope() {
    let body = device_authorization_body("X");
    assert_eq!(body, "client_id=X&scope=openid%20profile%20offline_access");
    assert!(body.contains("client_id=X"));
}

#[test]
fn poll_body_carries_code_and_client() {
    let body = token_poll_body("dev-123", "pam");
    assert_eq!(
        body,
        "device_code=dev-123&grant_type=urn:ietf:params:oauth:grant-type:device_code&client_id=pam"
    );
    assert!(body.contains("dev-123"));
    assert!(body.contains("client_id=pam"));
}

#[test]
fn device_authorization_is_read() {
    let doc = br#"{"device_code":"dc","user_code":"UC","verification_uri":"https://v","verification_uri_complete":"https://v?c=UC","expires_in":300,"interval":5}"#;
    let a = parse_device_authorization(doc).ok().unwrap();
    assert_eq!(a.device_code, "dc");
    assert_eq!(a.user_code, "UC");
    assert_eq!(a.verification_uri, "https://v");
    assert_eq!(a.verification_uri_complete, "https://v?c=UC");
    assert_eq!(a.expires_in, 300);
    assert_eq!(a.interval, 5);
}

#[test]
fn device_authorization_with_zero_interval_is_refused() {
    let doc = br#"{"device_code":"dc","user_code":"UC","verification_uri":"https://v","verification_uri_complete":"https://v?c=UC","expires_in":300,"interval":0}"#;
    assert_eq!(parse_device_authorization(doc).err(), Some(FlowError::ZeroInterval));
}

#[test]
fn device_authorization_missing_member_is_malformed() {
    let doc = br#"{"device_code":"dc","user_code":"UC","verification_uri":"https://v","expires_in":300,"interval":5}"#;
    assert_eq!(parse_device_authorization(doc).err(), Some(FlowError::MalformedReply));
    assert_eq!(parse_device_authorization(b"<html>").err(), Some(FlowError::MalformedReply));
}

#[test]
fn terminal_set() {
    assert!(is_terminal_error("authorization_declined"));
    assert!(is_terminal_error("bad_verification_code"));
    assert!(is_terminal_error("expired_token"));
    assert!(!is_terminal_error("authorization_pending"));
    assert!(!is_terminal_error("slow_down"));
    assert!(!is_terminal_error("access_denied"));
}

#[test]
fn grant_is_recognised_by_its_members() {
    let doc = br#"{"access_token":"at","refresh_token":"rt","token_type":"Bearer","id_token":"a.b.c","scope":"openid","session_state":"s"}"#;
    match classify_token_reply(doc) {
        PollOutcome::Granted(t) => {
            assert_eq!(t.access_token, "at");
            assert_eq!(t.id_token, "a.b.c");
            assert_eq!(t.refresh_token, Some("rt".to_string()));
            assert_eq!(t.session_state, Some("s".to_string()));
        }
        _ => panic!("expected a grant"),
    }
}

#[test]
fn errors_are_sorted_by_the_terminal_set() {
    match classify_token_reply(br#"{"error":"slow_down","error_description":"wait"}"#) {
        PollOutcome::Pending(e) => {
            assert_eq!(e.error, "slow_down");
            assert_eq!(e.error_description, Some("wait".to_string()));
        }
        _ => panic!("expected a retry"),
    }
    match classify_token_reply(br#"{"error":"expired_token"}"#) {
        PollOutcome::Refused(e) => {
            assert_eq!(e.error, "expired_token");
            assert_eq!(e.error_description, None);
        }
        _ => panic!("expected a refusal"),
    }
    assert!(matches!(classify_token_reply(b"not json"), PollOutcome::Unreadable));
    assert!(matches!(classify_token_reply(br#"{"access_token":"at"}"#), PollOutcome::Unreadable));
}

#[test]
fn payload_segment_is_the_second() {
    assert_eq!(payload_of("a.b.c"), Some("b"));
    assert_eq!(payload_of("a.b"), Some("b"));
    assert_eq!(payload_of("a..c"), Some(""));
    assert_eq!(payload_of("abc"), None);
}

#[test]
fn preferred_username_is_decoded() {
    assert_eq!(preferred_username(ALICE_TOKEN), Ok("alice".to_string()));
}

#[test]
fn bad_tokens_are_malformed() {
    assert_eq!(preferred_username("no-dots"), Err(FlowError::MalformedToken));
    assert_eq!(preferred_username("h.@@not base64@@.s"), Err(FlowError::MalformedToken));
    assert_eq!(preferred_username("h.eyJzdWIiOiIxMjMifQ==.s"), Err(FlowError::MalformedToken));
    assert_eq!(
        preferred_username("h.eyJwcmVmZXJyZWRfdXNlcm5hbWUiOjQyfQ==.s"),
        Err(FlowError::MalformedToken)
    );
}

#[test]
fn reconcile_binds_or_checks() {
    assert_eq!(reconcile(&None, "alice".to_string()), Ok(Some("alice".to_string())));
    assert_eq!(reconcile(&Some("alice".to_string()), "alice".to_string()), Ok(None));
    assert_eq!(
        reconcile(&Some("Alice".to_string()), "alice".to_string()),
        Err(FlowError::IdentityMismatch)
    );
    assert_eq!(reconcile(&None, "a\0b".to_string()), Err(FlowError::InvalidUsername));
}

#[test]
fn username_with_nul_is_not_bound() {
    let t = token("h.eyJwcmVmZXJyZWRfdXNlcm5hbWUiOiJhXHUwMDAwYiJ9.s");
    assert_eq!(conclude(&None, &t), Err(FlowError::InvalidUsername));
}

#[test]
fn grant_without_local_user_binds_alice() {
    let (mut session, first) = PollSession::start(&authorization(300, 5), None);
    assert!(matches!(first, Step::Poll { wait_secs: 0 }));
    match session.on_poll_reply(PollOutcome::Granted(token(ALICE_TOKEN))) {
        Step::Succeed { bind_user } => assert_eq!(bind_user, Some("alice".to_string())),
        _ => panic!("expected success"),
    }
}

#[test]
fn grant_for_other_local_user_fails() {
    let (mut session, _) = PollSession::start(&authorization(300, 5), Some("bob".to_string()));
    let step = session.on_poll_reply(PollOutcome::Granted(token(ALICE_TOKEN)));
    assert!(matches!(step, Step::Fail(FlowError::IdentityMismatch)));
    assert_eq!(session.existing_user, Some("bob".to_string()));
}

#[test]
fn grant_for_same_local_user_succeeds_without_binding() {
    let (mut session, _) = PollSession::start(&authorization(300, 5), Some("alice".to_string()));
    let step = session.on_poll_reply(PollOutcome::Granted(token(ALICE_TOKEN)));
    assert!(matches!(step, Step::Succeed { bind_user: None }));
}

#[test]
fn malformed_grant_fails_without_retry() {
    let (mut session, _) = PollSession::start(&authorization(300, 5), None);
    let step = session.on_poll_reply(PollOutcome::Granted(token("h.%%%.s")));
    assert!(matches!(step, Step::Fail(FlowError::MalformedToken)));
    let (mut session, _) = PollSession::start(&authorization(300, 5), None);
    let step = session.on_poll_reply(PollOutcome::Granted(token("h.eyJzdWIiOiIxMjMifQ==.s")));
    assert!(matches!(step, Step::Fail(FlowError::MalformedToken)));
}

#[test]
fn terminal_error_stops_polling() {
    for code in ["authorization_declined", "bad_verification_code", "expired_token"] {
        let (mut session, _) = PollSession::start(&authorization(300, 5), None);
        assert!(matches!(session.on_poll_reply(pending()), Step::Poll { wait_secs: 5 }));
        let body = format!(r#"{{"error":"{}"}}"#, code);
        let step = session.on_poll_reply(classify_token_reply(body.as_bytes()));
        assert!(matches!(step, Step::Fail(FlowError::ProviderRefused)));
        assert_eq!(session.attempts, 2);
    }
}

#[test]
fn retryable_error_polls_again_after_interval() {
    let (mut session, _) = PollSession::start(&authorization(60, 7), None);
    let slow = classify_token_reply(br#"{"error":"slow_down"}"#);
    assert!(matches!(session.on_poll_reply(slow), Step::Poll { wait_secs: 7 }));
    let other = classify_token_reply(br#"{"error":"temporarily_unavailable"}"#);
    assert!(matches!(session.on_poll_reply(other), Step::Poll { wait_secs: 7 }));
    assert!(matches!(session.on_poll_reply(PollOutcome::Unreadable), Step::Poll { wait_secs: 7 }));
}

#[test]
fn budget_is_expires_in_over_interval() {
    let (mut session, first) = PollSession::start(&authorization(300, 5), None);
    assert_eq!(session.budget, 60);
    let mut polls: u64 = if matches!(first, Step::Poll { .. }) { 1 } else { 0 };
    loop {
        match session.on_poll_reply(pending()) {
            Step::Poll { wait_secs } => {
                assert_eq!(wait_secs, 5);
                polls += 1;
            }
            Step::Fail(e) => {
                assert_eq!(e, FlowError::TimedOut);
                break;
            }
            Step::Succeed { .. } => panic!("no grant was given"),
        }
    }
    assert_eq!(polls, 60);
    assert_eq!(session.attempts, 60);
}

#[test]
fn budget_rounds_down() {
    let (session, _) = PollSession::start(&authorization(299, 5), None);
    assert_eq!(session.budget, 59);
    let (_, first) = PollSession::start(&authorization(4, 5), None);
    assert!(matches!(first, Step::Fail(FlowError::TimedOut)));
}

#[test]
fn zero_interval_is_a_protocol_violation() {
    let (session, first) = PollSession::start(&authorization(300, 0), None);
    assert_eq!(session.budget, 0);
    assert!(matches!(first, Step::Fail(FlowError::ZeroInterval)));
}

#[test]
fn message_shows_address_and_qr() {
    assert_eq!(
        login_message("https://v", "QR"),
        "\n\nPlease login at https://v or scan the QRCode below:\n\nQR"
    );
    let a = authorization(300, 5);
    let m = presentation(&a).unwrap();
    let head = "\n\nPlease login at https://idp.example/device?user_code=ABCD-EFGH or scan the QRCode below:\n\n";
    assert!(m.starts_with(head));
    let qr = &m[head.len()..];
    assert!(qr.len() > 100);
    assert!(qr.contains('\n'));
    assert_ne!(qr, a.verification_uri_complete);
}

#[test]
fn oversized_address_cannot_be_shown() {
    let mut a = authorization(300, 5);
    a.verification_uri_complete = "x".repeat(8000);
    assert_eq!(presentation(&a).err(), Some(FlowError::Presentation));
}
