use rsa::pkcs8::EncodePublicKey;
use scufflecloud::config::TimeoutConfig;
use scufflecloud::geoip::IpAddress;
use scufflecloud::google::{
    authorization_url, check_google_token, check_login_state, deserialize_google_id_token,
    has_admin_directory_scope, login_state, new_google_user, redirect_uri, text_contains, workspace_lookup,
    GoogleIdToken, GoogleTokenError, IdTokenError, LoginStateError, WorkspaceLookup,
};
use scufflecloud::ids::{format_id, IdKind, UserId};
use scufflecloud::mfa::MfaOption;
use scufflecloud::models::{DeviceAlgorithm, User};
use scufflecloud::sessions::{create_session, hex_string, new_magic_link_user, time_after, Device, SessionError};
use scufflecloud::tokens::{encrypt_token, generate_random_bytes, EncryptTokenError};
use sha2::Digest;

const ORIGIN: &str = "https://dashboard.scuffle.cloud";
const NOW: i128 = 1_700_000_000_000_000_000;

fn rsa_key() -> rsa::RsaPrivateKey {
    rsa::RsaPrivateKey::new(&mut rand::thread_rng(), 1024).unwrap()
}

fn user() -> User {
    User {
        id: UserId(77),
        preferred_name: None,
        first_name: None,
        last_name: None,
        password_hash: None,
        primary_email: Some("a@b.c".to_string()),
        avatar_url: None,
    }
}

#[test]
fn random_bytes_come_in_32() {
    let a = generate_random_bytes().unwrap();
    let b = generate_random_bytes().unwrap();
    assert_eq!((a.len(), b.len()), (32, 32));
    assert_ne!(a, b);
}

#[test]
fn tokens_are_encrypted_for_the_device_key() {
    let key = rsa_key();
    let der = key.to_public_key().to_public_key_der().unwrap();
    let enc = encrypt_token(DeviceAlgorithm::RsaOaepSha256, b"secret token", der.as_bytes()).unwrap();
    let dec = key.decrypt(rsa::Oaep::new::<sha2::Sha256>(), &enc).unwrap();
    assert_eq!(dec, b"secret token");
    assert_eq!(
        encrypt_token(DeviceAlgorithm::RsaOaepSha256, b"x", b"not a key"),
        Err(EncryptTokenError::InvalidPublicKey)
    );
}

#[test]
fn a_session_without_second_factors_lasts_its_full_span() {
    let key = rsa_key();
    let der = key.to_public_key().to_public_key_der().unwrap().as_bytes().to_vec();
    let timeouts = TimeoutConfig::default();
    let device = Device { algorithm: DeviceAlgorithm::RsaOaepSha256, public_key_data: der.clone() };
    let ip = IpAddress::V4(0x01020304);
    let (session, token, to) = create_session(&user(), device, ip, vec![], NOW, &timeouts).unwrap();
    let to = to.unwrap();
    assert_eq!((to.address.as_str(), to.name), ("a@b.c", None));
    assert!(!session.mfa_pending && !token.session_mfa_pending);
    assert_eq!(session.expires_at, NOW + 30 * 24 * 3600 * 1_000_000_000);
    assert_eq!(session.token_expires_at, Some(NOW + 4 * 3600 * 1_000_000_000));
    assert_eq!(session.device_fingerprint, sha2::Sha256::digest(&der).to_vec());
    assert_eq!(session.last_ip, ip);
    assert_eq!(token.user_id, format_id(IdKind::User, 77));
    assert_eq!(token.id, format_id(IdKind::UserSessionToken, session.token_id.unwrap().0));
    let plain = key.decrypt(rsa::Oaep::new::<sha2::Sha256>(), &token.encrypted_token).unwrap();
    assert_eq!(Some(plain), session.token);
}

#[test]
fn a_session_with_second_factors_waits_for_them() {
    let key = rsa_key();
    let der = key.to_public_key().to_public_key_der().unwrap().as_bytes().to_vec();
    let device = Device { algorithm: DeviceAlgorithm::RsaOaepSha256, public_key_data: der };
    let (session, token, _) =
        create_session(&user(), device, IpAddress::V6(1), vec![MfaOption::Totp], NOW, &TimeoutConfig::default()).unwrap();
    assert!(session.mfa_pending);
    assert_eq!(session.expires_at, NOW + 300 * 1_000_000_000);
    assert_eq!(token.mfa_options, vec![MfaOption::Totp]);
}

#[test]
fn a_device_with_a_bad_key_gets_no_session() {
    let device = Device { algorithm: DeviceAlgorithm::RsaOaepSha256, public_key_data: vec![1, 2, 3] };
    let r = create_session(&user(), device, IpAddress::V6(1), vec![], NOW, &TimeoutConfig::default());
    assert!(matches!(r, Err(SessionError::EncryptToken(EncryptTokenError::InvalidPublicKey))));
}

#[test]
fn time_after_adds_nanoseconds() {
    let d = scufflecloud::config::Duration { secs: 2, nanos: 5 };
    assert_eq!(time_after(10, d), 2_000_000_015);
    assert_eq!(time_after(-2_000_000_005, d), 0);
}

#[test]
fn magic_link_users_get_a_gravatar() {
    let u = new_magic_link_user(UserId(9), "a@b.c");
    let hex: String = sha2::Sha256::digest(b"a@b.c").iter().map(|b| format!("{b:02x}")).collect();
    assert_eq!(u.avatar_url, Some(format!("https://gravatar.com/avatar/{hex}?s=80&d=identicon")));
    assert_eq!(u.primary_email.as_deref(), Some("a@b.c"));
    assert_eq!(hex_string(&[0x00, 0x0f, 0xa5, 0xff]), "000fa5ff");
}

#[test]
fn google_redirect_and_authorization_url() {
    assert_eq!(redirect_uri(ORIGIN).unwrap(), "https://dashboard.scuffle.cloud/oauth2-callback/google");
    let url = authorization_url("client-1", ORIGIN, "st/ate=").unwrap();
    assert_eq!(
        url,
        "https://accounts.google.com/o/oauth2/v2/auth?client_id=client-1&redirect_uri=https%3A%2F%2Fdashboard.scuffle.cloud%2Foauth2-callback%2Fgoogle&response_type=code&scope=openid%20profile%20email%20https://www.googleapis.com/auth/admin.directory.user.readonly&state=st%2Fate%3D"
    );
    assert!(authorization_url("c", "mailto:x@y", "s").is_none());
}

#[test]
fn the_login_state_ties_the_callback_to_the_device() {
    let pk = b"device public key";
    let state = login_state(pk);
    assert_eq!(check_login_state(pk, &state), Ok(()));
    assert_eq!(check_login_state(b"another key", &state), Err(LoginStateError::FingerprintMismatch));
    assert_eq!(check_login_state(pk, "!!!"), Err(LoginStateError::Undecodable));
    assert_eq!(check_login_state(pk, "%FF"), Err(LoginStateError::Undecodable));
}

#[test]
fn google_tokens_must_be_bearer_tokens_with_the_scopes() {
    assert_eq!(check_google_token("Bearer", "openid profile email"), Ok(()));
    assert_eq!(
        check_google_token("bearer", "openid profile email"),
        Err(GoogleTokenError::InvalidTokenType("bearer".to_string()))
    );
    assert_eq!(
        check_google_token("Bearer", "openid email"),
        Err(GoogleTokenError::MissingScope("profile".to_string()))
    );
    assert_eq!(check_google_token("Bearer", ""), Err(GoogleTokenError::MissingScope("openid".to_string())));
    assert!(has_admin_directory_scope("openid https://www.googleapis.com/auth/admin.directory.user.readonly"));
    assert!(!has_admin_directory_scope("openid profile email"));
    assert!(text_contains("abc", ""));
    assert!(text_contains("abc", "bc"));
    assert!(!text_contains("abc", "abcd"));
}

#[test]
fn id_tokens_carry_their_payload_in_the_middle() {
    assert_eq!(deserialize_google_id_token("aGVhZA.eyJhIjoxfQ.c2ln").unwrap(), b"{\"a\":1}".to_vec());
    assert_eq!(deserialize_google_id_token("a.b"), Err(IdTokenError::InvalidFormat));
    assert_eq!(deserialize_google_id_token("a.b.c.d"), Err(IdTokenError::InvalidFormat));
    assert_eq!(deserialize_google_id_token("nodots"), Err(IdTokenError::InvalidFormat));
    assert_eq!(deserialize_google_id_token("a.!!.c"), Err(IdTokenError::InvalidPayload));
}

#[test]
fn first_google_sign_ins_create_a_user() {
    let token = GoogleIdToken {
        sub: "123".to_string(),
        email: "  Ada@Example.com ".to_string(),
        email_verified: true,
        family_name: Some("Lovelace".to_string()),
        given_name: Some("Ada".to_string()),
        hd: None,
        name: Some("Ada Lovelace".to_string()),
        picture: Some("https://pic".to_string()),
    };
    let u = new_google_user(UserId(5), &token);
    assert_eq!(u.primary_email.as_deref(), Some("ada@example.com"));
    assert_eq!(u.preferred_name.as_deref(), Some("Ada Lovelace"));
    assert_eq!(u.avatar_url.as_deref(), Some("https://pic"));
    let unverified = GoogleIdToken { email_verified: false, ..token };
    assert_eq!(new_google_user(UserId(5), &unverified).primary_email, None);
}

#[test]
fn workspace_answers() {
    assert_eq!(workspace_lookup(403), WorkspaceLookup::Forbidden);
    assert_eq!(workspace_lookup(200), WorkspaceLookup::Found);
    assert_eq!(workspace_lookup(404), WorkspaceLookup::Failed(404));
    assert_eq!(workspace_lookup(500), WorkspaceLookup::Failed(500));
}

#[test]
fn a_token_must_fit_the_modulus_with_its_padding() {
    let key = rsa::RsaPrivateKey::new(&mut rand::thread_rng(), 768).unwrap();
    let der = key.to_public_key().to_public_key_der().unwrap();
    let c = encrypt_token(DeviceAlgorithm::RsaOaepSha256, &[5; 30], der.as_bytes()).unwrap();
    assert_eq!(c.len(), 96);
    assert_eq!(
        encrypt_token(DeviceAlgorithm::RsaOaepSha256, &[5; 31], der.as_bytes()),
        Err(EncryptTokenError::EncryptionFailed)
    );
    let device = Device { algorithm: DeviceAlgorithm::RsaOaepSha256, public_key_data: der.as_bytes().to_vec() };
    let r = create_session(&user(), device, IpAddress::V6(1), vec![], NOW, &TimeoutConfig::default());
    assert!(matches!(r, Err(SessionError::EncryptToken(EncryptTokenError::EncryptionFailed))));
}
