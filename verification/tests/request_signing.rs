use base64::Engine;
use hmac::Mac;
use scufflecloud::auth::{
    auth_headers, begin_authentication, check_signature, finish_authentication, parse_algorithm,
    parse_authentication_hmac, parse_authentication_method, parse_nonce, request_within_window, AuthStart,
    AuthenticationAlgorithm, AuthenticationMethodParseError, NonceParseError, SessionState, StatusCode,
};
use scufflecloud::config::Duration;
use scufflecloud::headers::{get_header, header_value_text, parse_header_name};
use scufflecloud::ids::{format_id, IdKind};

const NOW_MS: i64 = 1_700_000_000_000;
const NOW_NS: i128 = NOW_MS as i128 * 1_000_000;

fn window() -> Duration {
    Duration { secs: 120, nanos: 0 }
}

fn header(name: &str, value: &str) -> (String, Vec<u8>) {
    (name.to_string(), value.as_bytes().to_vec())
}

fn hmac_b64(key: &[u8], message: &[u8]) -> String {
    let mut mac = hmac::Hmac::<sha2::Sha256>::new_from_slice(key).unwrap();
    mac.update(message);
    base64::prelude::BASE64_STANDARD.encode(mac.finalize().into_bytes())
}

fn signed_request(token: &[u8], timestamp_ms: i64, nonce: &[u8; 32]) -> Vec<(String, Vec<u8>)> {
    let token_id = format_id(IdKind::UserSessionToken, 42);
    let ts = timestamp_ms.to_string();
    let nonce_b64 = base64::prelude::BASE64_STANDARD.encode(nonce);
    let message = [token_id.as_bytes(), ts.as_bytes(), nonce_b64.as_bytes()].concat();
    vec![
        header("scuf-token-id", &token_id),
        header("scuf-timestamp", &ts),
        header("scuf-nonce", &nonce_b64),
        header("scuf-auth-method", "HMAC-SHA256;scuf-token-id, scuf-timestamp ,SCUF-NONCE"),
        header("scuf-auth-hmac", &hmac_b64(token, &message)),
    ]
}

#[test]
fn the_five_signing_headers() {
    let names: Vec<&str> = auth_headers();
    assert_eq!(names, vec!["scuf-token-id", "scuf-timestamp", "scuf-nonce", "scuf-auth-method", "scuf-auth-hmac"]);
}

#[test]
fn authentication_methods() {
    assert_eq!(parse_algorithm("HMAC-SHA256"), Ok(AuthenticationAlgorithm::HmacSha256));
    assert_eq!(parse_algorithm("hmac-sha256"), Err(AuthenticationMethodParseError::UnknownAlgorithm));
    let m = parse_authentication_method("HMAC-SHA256;A, b ,c").unwrap();
    assert_eq!(m.headers, vec!["a".to_string(), "b".to_string(), "c".to_string()]);
    assert_eq!(
        parse_authentication_method("HMAC-SHA256").unwrap_err(),
        AuthenticationMethodParseError::InvalidHeaderFormat
    );
    assert_eq!(
        parse_authentication_method("SHA1;a").unwrap_err(),
        AuthenticationMethodParseError::UnknownAlgorithm
    );
    assert_eq!(
        parse_authentication_method("HMAC-SHA256;a,,b").unwrap_err(),
        AuthenticationMethodParseError::InvalidHeaderFormat
    );
}

#[test]
fn nonces_are_32_bytes_of_base64() {
    let ok = base64::prelude::BASE64_STANDARD.encode([7u8; 32]);
    assert_eq!(parse_nonce(&ok).unwrap(), vec![7u8; 32]);
    let short = base64::prelude::BASE64_STANDARD.encode([7u8; 16]);
    assert_eq!(parse_nonce(&short), Err(NonceParseError::InvalidLength(16)));
    assert_eq!(parse_nonce("not base64!"), Err(NonceParseError::Base64));
    assert_eq!(parse_authentication_hmac("AAEC"), Some(vec![0, 1, 2]));
    assert_eq!(parse_authentication_hmac("%%%"), None);
}

#[test]
fn header_helpers() {
    let hs = vec![header("a", "1"), header("b", "2"), header("a", "3")];
    assert_eq!(get_header(&hs, "a"), Some(&b"1".to_vec()));
    assert_eq!(get_header(&hs, "c"), None);
    assert_eq!(header_value_text(&b"abc".to_vec()), Some("abc".to_string()));
    assert_eq!(header_value_text(&vec![0x80]), None);
    assert_eq!(parse_header_name("Content-Type"), Some("content-type".to_string()));
    assert_eq!(parse_header_name("bad name"), None);
    assert_eq!(parse_header_name(""), None);
}

#[test]
fn request_window_is_symmetric() {
    assert!(request_within_window(NOW_MS, NOW_NS, window()));
    assert!(request_within_window(NOW_MS - 120_000, NOW_NS, window()));
    assert!(request_within_window(NOW_MS + 120_000, NOW_NS, window()));
    assert!(!request_within_window(NOW_MS - 120_001, NOW_NS, window()));
    assert!(!request_within_window(NOW_MS + 120_001, NOW_NS, window()));
}

#[test]
fn unsigned_requests_are_anonymous() {
    assert!(matches!(begin_authentication(&vec![], NOW_NS, window()), AuthStart::Anonymous));
    let mut hs = signed_request(b"token", NOW_MS, &[1; 32]);
    hs.pop();
    assert!(matches!(begin_authentication(&hs, NOW_NS, window()), AuthStart::Anonymous));
}

#[test]
fn malformed_signing_headers_are_bad_requests() {
    let mut hs = signed_request(b"token", NOW_MS, &[1; 32]);
    hs[0] = header("scuf-token-id", "u_01ARZ3NDEKTSV4RRFFQ69G5FAV");
    assert!(matches!(
        begin_authentication(&hs, NOW_NS, window()),
        AuthStart::Rejected(StatusCode::BadRequest)
    ));
    let mut hs = signed_request(b"token", NOW_MS, &[1; 32]);
    hs[3] = header("scuf-auth-method", "HMAC-SHA256;scuf-token-id");
    assert!(matches!(
        begin_authentication(&hs, NOW_NS, window()),
        AuthStart::Rejected(StatusCode::BadRequest)
    ));
}

#[test]
fn stale_requests_are_unauthorized() {
    let hs = signed_request(b"token", NOW_MS - 10 * 60 * 1000, &[1; 32]);
    assert!(matches!(
        begin_authentication(&hs, NOW_NS, window()),
        AuthStart::Rejected(StatusCode::Unauthorized)
    ));
}

#[test]
fn a_valid_signature_claims_the_nonce() {
    let token = b"session-token".to_vec();
    let hs = signed_request(&token, NOW_MS, &[9; 32]);
    let auth = match begin_authentication(&hs, NOW_NS, window()) {
        AuthStart::LookUp(a) => a,
        _ => panic!("a complete signature is looked up"),
    };
    assert_eq!(auth.token_id.0, 42);
    assert_eq!(auth.timestamp_ms, NOW_MS);
    let key = check_signature(&hs, &auth, Some(&token)).unwrap();
    let mut expected = b"nonces:".to_vec();
    expected.extend_from_slice(&[9; 32]);
    assert_eq!(key, expected);
}

#[test]
fn a_wrong_key_or_missing_session_is_unauthorized() {
    let hs = signed_request(b"session-token", NOW_MS, &[9; 32]);
    let auth = match begin_authentication(&hs, NOW_NS, window()) {
        AuthStart::LookUp(a) => a,
        _ => panic!("a complete signature is looked up"),
    };
    assert_eq!(check_signature(&hs, &auth, Some(&b"other".to_vec())), Err(StatusCode::Unauthorized));
    assert_eq!(check_signature(&hs, &auth, None), Err(StatusCode::Unauthorized));
}

#[test]
fn replays_are_refused_and_expiry_is_reported() {
    assert_eq!(finish_authentication(true, None, 5), Err(StatusCode::Unauthorized));
    assert_eq!(finish_authentication(false, None, 5), Ok(SessionState::Active));
    assert_eq!(finish_authentication(false, Some(6), 5), Ok(SessionState::Active));
    assert_eq!(finish_authentication(false, Some(5), 5), Ok(SessionState::Expired));
}

#[test]
fn nonces_are_remembered_for_the_request_window() {
    assert_eq!(scufflecloud::auth::nonce_expiration_ms(Duration { secs: 120, nanos: 0 }), 120_000);
    assert_eq!(scufflecloud::auth::nonce_expiration_ms(Duration { secs: 1, nanos: 2_500_000 }), 1_002);
}

fn session() -> scufflecloud::models::UserSession {
    scufflecloud::models::UserSession {
        user_id: scufflecloud::ids::UserId(1),
        device_fingerprint: vec![1],
        device_algorithm: scufflecloud::models::DeviceAlgorithm::RsaOaepSha256,
        device_pk_data: vec![2],
        last_used_at: 0,
        last_ip: scufflecloud::geoip::IpAddress::V4(1),
        token_id: Some(scufflecloud::ids::UserSessionTokenId(42)),
        token: Some(vec![3]),
        token_expires_at: None,
        expires_at: 100,
        mfa_pending: false,
    }
}

#[test]
fn only_unexpired_sessions_with_the_token_are_active() {
    let s = session();
    assert!(scufflecloud::auth::is_active_for_token(&s, scufflecloud::ids::UserSessionTokenId(42), 99));
    assert!(!scufflecloud::auth::is_active_for_token(&s, scufflecloud::ids::UserSessionTokenId(42), 100));
    assert!(!scufflecloud::auth::is_active_for_token(&s, scufflecloud::ids::UserSessionTokenId(43), 0));
    let mut no_token = session();
    no_token.token = None;
    assert!(!scufflecloud::auth::is_active_for_token(&no_token, scufflecloud::ids::UserSessionTokenId(42), 0));
}

#[test]
fn using_a_session_records_address_and_time() {
    let mut s = session();
    scufflecloud::auth::touch_session(&mut s, scufflecloud::geoip::IpAddress::V6(9), 55);
    assert_eq!(s.last_ip, scufflecloud::geoip::IpAddress::V6(9));
    assert_eq!(s.last_used_at, 55);
    assert_eq!(s.expires_at, 100);
}

#[test]
fn timestamps_beyond_the_calendar_make_a_request_anonymous() {
    let mut hs = signed_request(b"token", NOW_MS, &[1; 32]);
    hs[1] = header("scuf-timestamp", "9000000000000000000");
    assert!(matches!(begin_authentication(&hs, NOW_NS, window()), AuthStart::Anonymous));
    hs[1] = header("scuf-timestamp", "-5");
    assert!(matches!(
        begin_authentication(&hs, NOW_NS, window()),
        AuthStart::Rejected(StatusCode::BadRequest)
    ));
}

#[test]
fn the_calendar_ends_at_the_years_chrono_represents() {
    let mut hs = signed_request(b"token", NOW_MS, &[1; 32]);
    hs[1] = header("scuf-timestamp", "8210266876799999");
    assert!(matches!(begin_authentication(&hs, NOW_NS, window()), AuthStart::Rejected(StatusCode::Unauthorized)));
    hs[1] = header("scuf-timestamp", "8210266876800000");
    assert!(matches!(begin_authentication(&hs, NOW_NS, window()), AuthStart::Anonymous));
    hs[1] = header("scuf-timestamp", "18438409472480751616");
    assert!(matches!(begin_authentication(&hs, NOW_NS, window()), AuthStart::Rejected(StatusCode::Unauthorized)));
    hs[1] = header("scuf-timestamp", "18438409472480751615");
    assert!(matches!(begin_authentication(&hs, NOW_NS, window()), AuthStart::Anonymous));
}
