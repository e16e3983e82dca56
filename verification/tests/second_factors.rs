use scufflecloud::ids::{MfaRecoveryCodeId, MfaTotpCredentialId, UserId};
use scufflecloud::mfa::{
    check_password_change, check_webauthn_counter, generate_recovery_codes, hash_password, mfa_options,
    process_recovery_code, user_login_name, verify_password, webauthn_display_name, CounterCheck, MfaOption,
    PasswordChangeError, PasswordError, RecoveryCodeError,
};
use scufflecloud::models::{MfaRecoveryCode, MfaTotpCredential, User};
use scufflecloud::totp::{new_token, process_token_at, verify_token, verify_token_at, TotpError};

fn user(primary_email: Option<&str>) -> User {
    User {
        id: UserId(1),
        preferred_name: None,
        first_name: None,
        last_name: None,
        password_hash: None,
        primary_email: primary_email.map(str::to_string),
        avatar_url: None,
    }
}

fn totp_code(secret: &[u8], time: u64) -> String {
    totp_rs::TOTP::new(totp_rs::Algorithm::SHA1, 6, 1, 30, secret.to_vec(), Some("scuffle.cloud".to_string()), String::new())
        .unwrap()
        .generate(time)
}

#[test]
fn mfa_options_list_the_kinds_a_user_holds() {
    assert_eq!(mfa_options(0, 0, 0), vec![]);
    assert_eq!(mfa_options(2, 0, 5), vec![MfaOption::Totp, MfaOption::RecoveryCodes]);
    assert_eq!(mfa_options(1, 1, 1), vec![MfaOption::Totp, MfaOption::WebAuthn, MfaOption::RecoveryCodes]);
    assert_eq!(mfa_options(0, 3, -1), vec![MfaOption::WebAuthn]);
}

#[test]
fn a_hashed_password_verifies() {
    let hash = hash_password("correct horse").unwrap();
    assert_eq!(verify_password(&hash, "correct horse"), Ok(()));
    assert_eq!(verify_password(&hash, "wrong horse"), Err(PasswordError::InvalidPassword));
    assert_eq!(verify_password("not a phc string", "x"), Err(PasswordError::InvalidHash));
}

#[test]
fn password_changes_need_the_current_password() {
    let hash = hash_password("old").unwrap();
    assert_eq!(check_password_change(None, None), Ok(()));
    assert_eq!(check_password_change(Some(&hash), None), Err(PasswordChangeError::MissingCurrentPassword));
    assert_eq!(check_password_change(Some(&hash), Some("old")), Ok(()));
    assert_eq!(
        check_password_change(Some(&hash), Some("new")),
        Err(PasswordChangeError::CurrentPassword(PasswordError::InvalidPassword))
    );
}

#[test]
fn recovery_codes_verify_against_their_hashes() {
    let codes = generate_recovery_codes(UserId(3)).unwrap();
    assert_eq!(codes.codes.len(), 12);
    assert!(codes.codes.iter().all(|c| c.len() == 8 && c.chars().all(|ch| ch.is_ascii_alphanumeric())));
    assert!(codes.records.iter().all(|r| r.user_id == UserId(3)));
    assert_ne!(codes.records[0].id, codes.records[1].id);
    assert_eq!(verify_password(&codes.records[11].code_hash, &codes.codes[11]), Ok(()));
}

#[test]
fn a_broken_recovery_hash_stops_the_search() {
    let good = MfaRecoveryCode { id: MfaRecoveryCodeId(2), user_id: UserId(1), code_hash: hash_password("abc").unwrap() };
    let bad = MfaRecoveryCode { id: MfaRecoveryCodeId(1), user_id: UserId(1), code_hash: "garbage".to_string() };
    assert_eq!(process_recovery_code(&vec![bad.clone(), good.clone()], "abc"), Err(RecoveryCodeError::InvalidHash));
    assert_eq!(process_recovery_code(&vec![good.clone(), bad], "abc"), Ok(Some(MfaRecoveryCodeId(2))));
    assert_eq!(process_recovery_code(&vec![], "abc"), Ok(None));
    let other = MfaRecoveryCode { id: MfaRecoveryCodeId(3), user_id: UserId(1), code_hash: hash_password("xyz").unwrap() };
    assert_eq!(process_recovery_code(&vec![other.clone(), good.clone()], "abc"), Ok(Some(MfaRecoveryCodeId(2))));
    assert_eq!(process_recovery_code(&vec![other], "abc"), Ok(None));
}

#[test]
fn webauthn_counters_must_grow() {
    assert_eq!(check_webauthn_counter(0, Some(10)), CounterCheck::Update(0));
    assert_eq!(check_webauthn_counter(5, None), CounterCheck::Update(5));
    assert_eq!(check_webauthn_counter(11, Some(10)), CounterCheck::Update(11));
    assert_eq!(check_webauthn_counter(10, Some(10)), CounterCheck::Revoke);
    assert_eq!(check_webauthn_counter(3, Some(10)), CounterCheck::Revoke);
}

#[test]
fn login_and_display_names() {
    assert_eq!(user_login_name(&user(Some("a@b.c"))), "a@b.c");
    assert_eq!(user_login_name(&user(None)), "u_00000000000000000000000001");
    let mut u = user(Some("a@b.c"));
    assert_eq!(webauthn_display_name(&u), "a@b.c");
    u.first_name = Some("Ada".to_string());
    assert_eq!(webauthn_display_name(&u), "a@b.c");
    u.last_name = Some("Lovelace".to_string());
    assert_eq!(webauthn_display_name(&u), "Ada Lovelace");
    u.preferred_name = Some("Countess".to_string());
    assert_eq!(webauthn_display_name(&u), "Countess");
}

#[test]
fn totp_codes_are_checked_with_one_step_of_skew() {
    let secret = [7u8; 20];
    let t = 1_700_000_000u64;
    assert_eq!(verify_token_at(&secret, &totp_code(&secret, t), t), Ok(()));
    assert_eq!(verify_token_at(&secret, &totp_code(&secret, t - 30), t), Ok(()));
    assert_eq!(verify_token_at(&secret, &totp_code(&secret, t + 30), t), Ok(()));
    assert_eq!(verify_token_at(&secret, &totp_code(&secret, t - 90), t), Err(TotpError::InvalidToken));
    assert_eq!(verify_token_at(&[1u8; 8], "123456", t), Err(TotpError::InvalidSecret));
    assert_eq!(verify_token(&[1u8; 8], "123456"), Err(TotpError::InvalidSecret));
}

#[test]
fn the_current_code_is_accepted() {
    let secret = [9u8; 32];
    let now = std::time::SystemTime::now().duration_since(std::time::UNIX_EPOCH).unwrap().as_secs();
    assert_eq!(verify_token(&secret, &totp_code(&secret, now)), Ok(()));
}

#[test]
fn the_first_credential_that_accepts_the_code_is_used() {
    let t = 1_700_000_000u64;
    let a = MfaTotpCredential { id: MfaTotpCredentialId(1), user_id: UserId(1), name: None, secret: vec![1; 20], last_used_at: 0 };
    let b = MfaTotpCredential { id: MfaTotpCredentialId(2), user_id: UserId(1), name: None, secret: vec![2; 20], last_used_at: 0 };
    let code = totp_code(&[2; 20], t);
    assert_eq!(process_token_at(&vec![a.clone(), b.clone()], &code, t), Ok(MfaTotpCredentialId(2)));
    assert_eq!(process_token_at(&vec![a.clone()], &code, t), Err(TotpError::InvalidToken));
    assert_eq!(process_token_at(&vec![], &code, t), Err(TotpError::InvalidToken));
    let short = MfaTotpCredential { secret: vec![1; 4], ..a };
    assert_eq!(process_token_at(&vec![short, b], &code, t), Err(TotpError::InvalidSecret));
}

#[test]
fn new_totp_secrets_come_with_their_url() {
    let r = new_token("a@b.c").unwrap();
    assert_eq!(r.secret.len(), 32);
    let expected = totp_rs::TOTP::new(
        totp_rs::Algorithm::SHA1, 6, 1, 30, r.secret.clone(), Some("scuffle.cloud".to_string()), "a@b.c".to_string(),
    )
    .unwrap();
    assert_eq!(r.secret_url, expected.get_url());
    assert!(r.secret_url.starts_with("otpauth://totp/scuffle.cloud:a%40b.c?secret="));
    assert_eq!(&r.secret_qrcode_png[..4], b"\x89PNG");
    assert_eq!(new_token("a:b").unwrap_err(), TotpError::InvalidSecret);
}

#[test]
fn hash_password_accepts_empty_and_non_ascii_passwords() {
    let empty = hash_password("").unwrap();
    assert!(verify_password(&empty, "").is_ok());
    let wide = hash_password("pässwörd 🔑").unwrap();
    assert!(verify_password(&wide, "pässwörd 🔑").is_ok());
    assert_eq!(verify_password(&wide, "passwort"), Err(PasswordError::InvalidPassword));
}
