use rsa::pkcs8::EncodePublicKey;
use scufflecloud::auth::{nonce_expiration_ms, NonceStore};
use scufflecloud::config::{Duration, RedisConfig, RedisServerLayout, TimeoutConfig};
use scufflecloud::email_service::{build_raw_email, BuildEmailError};
use scufflecloud::emails::{EmailAddress, SendEmailRequest};
use scufflecloud::entity_type_name::EntityTypeName;
use scufflecloud::geoip::IpAddress;
use scufflecloud::google::{
    google_login_principal, login_state, CompleteLoginWithGoogleRequest, GoogleCallbackError, GoogleIdToken, LoginStateError,
};
use scufflecloud::ids::{format_id, IdKind, MfaRecoveryCodeId, NewUserEmailRequestId, UserId, UserSessionTokenId};
use scufflecloud::login::magic_link_principal;
use scufflecloud::mfa::{hash_password, use_recovery_code};
use scufflecloud::models::{DeviceAlgorithm, MfaRecoveryCode, NewUserEmailRequest, User};
use scufflecloud::requests::{new_email_outcome, NewEmailError};
use scufflecloud::sessions::{new_device_recipient, new_session, Device};
use scufflecloud::totp::{totp_registration, totp_settings, verify_token, TotpError};

fn user(id: u128, email: Option<&str>, name: Option<&str>) -> User {
    User {
        id: UserId(id),
        preferred_name: name.map(str::to_string),
        first_name: None,
        last_name: None,
        password_hash: None,
        primary_email: email.map(str::to_string),
        avatar_url: Some("old.png".to_string()),
    }
}

fn token(email_verified: bool, hd: Option<&str>) -> GoogleIdToken {
    GoogleIdToken {
        sub: "sub-1".to_string(),
        email: "Someone@Example.com".to_string(),
        email_verified,
        family_name: Some("Doe".to_string()),
        given_name: Some("Jane".to_string()),
        hd: hd.map(str::to_string),
        name: Some("Jane Doe".to_string()),
        picture: Some("new.png".to_string()),
    }
}

#[test]
fn a_nonce_cannot_be_replayed_within_its_window() {
    let window = nonce_expiration_ms(Duration { secs: 2, nanos: 0 });
    assert_eq!(window, 2000);
    let mut store = NonceStore::new();
    assert!(!store.claim(b"nonces:a".to_vec(), 1000, 1000 + window));
    assert!(!store.claim(b"nonces:b".to_vec(), 1500, 1500 + window));
    assert!(store.claim(b"nonces:a".to_vec(), 2999, 2999 + window));
    assert!(!store.claim(b"nonces:a".to_vec(), 3000, 3000 + window));
    assert!(store.claim(b"nonces:a".to_vec(), 3001, 3001 + window));
}

#[test]
fn a_recovery_code_is_used_up() {
    let mut codes = vec![
        MfaRecoveryCode { id: MfaRecoveryCodeId(1), user_id: UserId(9), code_hash: hash_password("first").unwrap() },
        MfaRecoveryCode { id: MfaRecoveryCodeId(2), user_id: UserId(9), code_hash: hash_password("second").unwrap() },
        MfaRecoveryCode { id: MfaRecoveryCodeId(3), user_id: UserId(9), code_hash: hash_password("third").unwrap() },
    ];
    assert_eq!(use_recovery_code(&mut codes, "second"), Ok(Some(MfaRecoveryCodeId(2))));
    assert_eq!(codes.iter().map(|c| c.id.0).collect::<Vec<_>>(), vec![1, 3]);
    assert_eq!(use_recovery_code(&mut codes, "second"), Ok(None));
    assert_eq!(codes.len(), 2);
    assert_eq!(use_recovery_code(&mut codes, "wrong"), Ok(None));
    assert_eq!(codes.len(), 2);
}

#[test]
fn a_linked_google_account_keeps_its_user_and_takes_the_picture() {
    let linked = user(5, Some("a@b.c"), Some("Al"));
    let p = google_login_principal(Some(linked), Some(user(6, None, None)), UserId(7), &token(true, Some("x.com")));
    assert_eq!(p.user.id, UserId(5));
    assert_eq!(p.user.preferred_name.as_deref(), Some("Al"));
    assert_eq!(p.user.avatar_url.as_deref(), Some("new.png"));
    assert!(!p.first_login && !p.create_user && !p.join_hosted_domain);
}

#[test]
fn a_first_google_sign_in_finds_or_creates_the_user() {
    let p = google_login_principal(None, Some(user(6, Some("someone@example.com"), None)), UserId(7), &token(true, None));
    assert_eq!(p.user.id, UserId(6));
    assert!(p.first_login && !p.create_user && !p.join_hosted_domain);

    let p = google_login_principal(None, Some(user(6, None, None)), UserId(7), &token(false, Some("x.com")));
    assert_eq!(p.user.id, UserId(7));
    assert!(p.first_login && p.create_user && p.join_hosted_domain);
    assert_eq!(p.user.primary_email, None);
    assert_eq!(p.user.first_name.as_deref(), Some("Jane"));

    let p = google_login_principal(None, None, UserId(8), &token(true, None));
    assert_eq!(p.user.id, UserId(8));
    assert_eq!(p.user.primary_email.as_deref(), Some("someone@example.com"));
    assert!(p.create_user);
}

#[test]
fn the_google_callback_needs_the_device_that_started_it() {
    let d = Device { algorithm: DeviceAlgorithm::RsaOaepSha256, public_key_data: vec![1, 2, 3] };
    let other = Device { algorithm: DeviceAlgorithm::RsaOaepSha256, public_key_data: vec![4, 5, 6] };
    let state = login_state(&d.public_key_data);
    let request = |device: Option<&Device>| CompleteLoginWithGoogleRequest {
        code: "code".to_string(),
        state: state.clone(),
        device: device.cloned(),
    };
    assert_eq!(request(Some(&d)).validate(), Ok(()));
    assert_eq!(
        request(Some(&other)).validate(),
        Err(GoogleCallbackError::State(LoginStateError::FingerprintMismatch))
    );
    assert_eq!(request(None).validate(), Err(GoogleCallbackError::MissingDevice));
}

fn email_request() -> NewUserEmailRequest {
    NewUserEmailRequest {
        id: NewUserEmailRequestId(1),
        user_id: UserId(3),
        email: "new@b.c".to_string(),
        code: vec![1; 32],
        expires_at: 10,
    }
}

#[test]
fn confirming_a_new_email_address() {
    assert!(matches!(new_email_outcome(None, false, UserId(3), 5), Err(NewEmailError::NotFound)));
    assert!(matches!(new_email_outcome(Some(email_request()), true, UserId(3), 5), Err(NewEmailError::AlreadyExists)));
    let e = new_email_outcome(Some(email_request()), false, UserId(3), 5).unwrap();
    assert_eq!((e.email.as_str(), e.user_id, e.created_at), ("new@b.c", UserId(3), 5));
}

#[test]
fn new_devices_are_reported_to_the_primary_address() {
    let r = new_device_recipient(&user(1, Some("a@b.c"), Some("Al"))).unwrap();
    assert_eq!((r.address.as_str(), r.name.as_deref()), ("a@b.c", Some("Al")));
    assert!(new_device_recipient(&user(1, None, Some("Al"))).is_none());
}

#[test]
fn a_new_session_keeps_the_token_it_is_given() {
    let device = Device { algorithm: DeviceAlgorithm::RsaOaepSha256, public_key_data: vec![9; 4] };
    let (session, t) = new_session(
        &user(4, None, None),
        device,
        IpAddress::V4(1),
        vec![],
        1_000,
        &TimeoutConfig::default(),
        UserSessionTokenId(12),
        vec![7; 32],
        vec![1, 2, 3],
    );
    assert_eq!(session.token, Some(vec![7; 32]));
    assert_eq!(session.token_id, Some(UserSessionTokenId(12)));
    assert_eq!(t.encrypted_token, vec![1, 2, 3]);
    assert_eq!(t.id, format_id(IdKind::UserSessionToken, 12));
}

#[test]
fn the_session_token_is_what_the_device_decrypts() {
    let key = rsa::RsaPrivateKey::new(&mut rand::thread_rng(), 1024).unwrap();
    let der = key.to_public_key().to_public_key_der().unwrap().as_bytes().to_vec();
    let device = Device { algorithm: DeviceAlgorithm::RsaOaepSha256, public_key_data: der };
    let (session, t, to) = scufflecloud::sessions::create_session(
        &user(4, None, None),
        device,
        IpAddress::V4(1),
        vec![],
        1_000,
        &TimeoutConfig::default(),
    )
    .unwrap();
    let plain = key.decrypt(rsa::Oaep::new::<sha2::Sha256>(), &t.encrypted_token).unwrap();
    assert_eq!(Some(plain), session.token);
    assert!(to.is_none());
}

#[test]
fn magic_link_users_start_without_names() {
    let p = magic_link_principal(None, UserId(2), "x@y.z");
    assert!(p.create_user);
    assert_eq!((p.user.preferred_name, p.user.first_name, p.user.last_name), (None, None, None));
}

#[test]
fn one_redis_server_is_centralized_and_more_a_cluster() {
    let one = RedisConfig { servers: vec!["cache:7000".to_string()], ..RedisConfig::default() };
    match one.client_settings().unwrap().layout {
        RedisServerLayout::Centralized(s) => assert_eq!((s.host.as_str(), s.port), ("cache", 7000)),
        RedisServerLayout::Clustered(_) => panic!("one server is centralized"),
    }
    let two = RedisConfig { servers: vec!["a".to_string(), "b:1".to_string()], ..RedisConfig::default() };
    match two.client_settings().unwrap().layout {
        RedisServerLayout::Clustered(v) => {
            assert_eq!(v.iter().map(|s| (s.host.as_str(), s.port)).collect::<Vec<_>>(), vec![("a", 6379), ("b", 1)])
        }
        RedisServerLayout::Centralized(_) => panic!("two servers are a cluster"),
    }
    let bad = RedisConfig { servers: vec!["redis:notaport".to_string()], ..RedisConfig::default() };
    assert!(bad.client_settings().is_err());
}

#[test]
fn entity_type_names_compare_by_text() {
    let a = EntityTypeName::new("User");
    let b = EntityTypeName::new("User");
    let c = EntityTypeName::new("Organization");
    assert_eq!(a, b);
    assert_ne!(a, c);
    assert!(c < a);
    assert_eq!(a.to_string(), "User");
    let mut set = std::collections::HashSet::new();
    set.insert(a);
    assert!(set.contains(&b));
}

#[test]
fn raw_emails_carry_the_request() {
    let req = SendEmailRequest {
        from: Some(EmailAddress { name: Some("Sender".to_string()), address: "from@x.y".to_string() }),
        to: Some(EmailAddress { name: None, address: "to@x.y".to_string() }),
        subject: "Hello".to_string(),
        text: "plain words".to_string(),
        html: "<i>html words</i>".to_string(),
    };
    let raw = String::from_utf8(build_raw_email(req).unwrap()).unwrap();
    let from_line = raw.lines().find(|l| l.starts_with("From: ")).unwrap();
    assert!(from_line.contains("Sender") && from_line.contains("from@x.y"));
    let to_line = raw.lines().find(|l| l.starts_with("To: ")).unwrap();
    assert!(to_line.contains("to@x.y"));
    assert!(raw.contains("plain words"));
    assert!(raw.contains("<i>html words</i>"));
    let missing = SendEmailRequest { from: None, to: None, subject: String::new(), text: String::new(), html: String::new() };
    assert_eq!(build_raw_email(missing), Err(BuildEmailError::MissingFrom));
}

#[test]
fn totp_secrets_and_settings() {
    let s = totp_settings();
    assert_eq!((s.digits, s.skew, s.step, s.issuer.as_str()), (6, 1, 30, "scuffle.cloud"));
    assert_eq!(verify_token(&[0u8; 15], "123456"), Err(TotpError::InvalidSecret));
    assert_eq!(verify_token(&[0u8; 20], "000000x"), Err(TotpError::InvalidToken));
    assert!(matches!(totp_registration(vec![1; 10], "a"), Err(TotpError::InvalidSecret)));
    assert!(matches!(totp_registration(vec![1; 32], "a:b"), Err(TotpError::InvalidSecret)));
    let r = totp_registration(vec![1; 32], "someone").unwrap();
    assert_eq!(r.secret, vec![1; 32]);
    assert!(r.secret_url.starts_with("otpauth://totp/"));
    assert!(r.secret_url.contains("issuer=scuffle.cloud"));
    assert!(!r.secret_qrcode_png.is_empty());
}
