use scufflecloud::config::{dashboard_origin, DashboardOrigin, Duration, MissingOrigin, RedisConfig, WebauthnConfig};
use scufflecloud::emails::geo_info_from_names;
use scufflecloud::geoip::ReverseProxyConfig;
use scufflecloud::ids::{
    MfaTotpCredentialId, MfaWebauthnCredentialId, OrganizationId, OrganizationInvitationId, ProjectId, UserId,
};
use scufflecloud::login::{
    captcha_check, magic_link_principal, magic_link_request_email, password_login, should_look_up_workspace,
    workspace_admin_outcome, CaptchaCheck, CaptchaProvider, GoogleWorkspace, PasswordLoginError,
};
use scufflecloud::mfa::{hash_password, PasswordError};
use scufflecloud::models::{
    MfaTotpCredential, MfaWebauthnCredential, Organization, OrganizationInvitation, OrganizationMember, Project, User,
    UserEmail,
};
use scufflecloud::pb::{
    created_at, organization_invitation_to_pb, organization_member_to_pb, organization_to_pb, project_to_pb, timestamp,
    totp_credential_to_pb, user_email_to_pb, user_to_pb, webauthn_credential_to_pb, Timestamp,
};

const ULID_TEXT: &str = "01ARZ3NDEKTSV4RRFFQ69G5FAV";

fn sample_ulid() -> u128 {
    ulid::Ulid::from_string(ULID_TEXT).unwrap().0
}

fn user() -> User {
    User {
        id: UserId(sample_ulid()),
        preferred_name: Some("Ada".to_string()),
        first_name: None,
        last_name: None,
        password_hash: None,
        primary_email: Some("ada@example.com".to_string()),
        avatar_url: None,
    }
}

#[test]
fn redis_client_settings() {
    let s = RedisConfig::default().client_settings().unwrap();
    assert_eq!(s.database, Some(0));
    assert!(s.fail_fast);
    assert_eq!(s.pool_size, 10);
    let mut bad = RedisConfig::default();
    bad.servers = vec!["x:y".to_string()];
    assert!(bad.client_settings().is_err());
}

#[test]
fn dashboard_origins() {
    let d = DashboardOrigin::default();
    assert_eq!(d.configured().map(String::as_str), Some("https://dashboard.scuffle.cloud/"));
    assert_eq!(dashboard_origin(&d, Some("https://other")).unwrap(), "https://dashboard.scuffle.cloud/");
    assert_eq!(dashboard_origin(&DashboardOrigin::FromRequest, Some("https://other")).unwrap(), "https://other");
    assert_eq!(dashboard_origin(&DashboardOrigin::FromRequest, None), Err(MissingOrigin));
    let w = WebauthnConfig::default();
    assert_eq!((w.rp_id.as_str(), w.rp_origin.as_str()), ("scuffle.cloud", "https://dashboard.scuffle.cloud/"));
    let r = ReverseProxyConfig::default();
    assert_eq!(r.ip_header, "x-forwarded-for");
    assert!(r.internal_networks.is_empty() && r.trusted_proxies.is_empty());
}

#[test]
fn timestamps_round_down_to_whole_seconds() {
    assert_eq!(timestamp(1_500_000_000), Timestamp { seconds: 1, nanos: 500_000_000 });
    assert_eq!(timestamp(-1), Timestamp { seconds: -1, nanos: 999_999_999 });
    assert_eq!(timestamp(-2_000_000_000), Timestamp { seconds: -2, nanos: 0 });
    let ms = ulid::Ulid(sample_ulid()).timestamp_ms();
    assert_eq!(created_at(sample_ulid()), Timestamp { seconds: (ms / 1000) as i64, nanos: ((ms % 1000) * 1_000_000) as i32 });
}

#[test]
fn records_as_the_api_presents_them() {
    let v = sample_ulid();
    let u = user_to_pb(user());
    assert_eq!(u.id, format!("u_{ULID_TEXT}"));
    assert_eq!(u.preferred_name.as_deref(), Some("Ada"));
    assert_eq!(u.created_at, Some(created_at(v)));
    let o = organization_to_pb(Organization {
        id: OrganizationId(v),
        google_customer_id: Some("C1".to_string()),
        google_hosted_domain: Some("x.org".to_string()),
        name: "X".to_string(),
        owner_id: UserId(v),
    });
    assert_eq!((o.id.as_str(), o.owner_id.as_str()), (format!("o_{ULID_TEXT}").as_str(), format!("u_{ULID_TEXT}").as_str()));
    let p = project_to_pb(Project { id: ProjectId(v), name: "P".to_string(), organization_id: OrganizationId(v) });
    assert_eq!(p.id, format!("p_{ULID_TEXT}"));
    let t = totp_credential_to_pb(MfaTotpCredential {
        id: MfaTotpCredentialId(v),
        user_id: UserId(v),
        name: None,
        secret: vec![1; 20],
        last_used_at: 2_000_000_001,
    });
    assert_eq!(t.id, format!("mft_{ULID_TEXT}"));
    assert_eq!(t.last_used_at_utc, Some(Timestamp { seconds: 2, nanos: 1 }));
    let w = webauthn_credential_to_pb(MfaWebauthnCredential {
        id: MfaWebauthnCredentialId(v),
        user_id: UserId(v),
        name: Some("key".to_string()),
        credential_id: vec![1],
        counter: Some(3),
        last_used_at: 0,
    });
    assert_eq!(w.id, format!("mfw_{ULID_TEXT}"));
    assert_eq!(w.created_at, Some(created_at(v)));
    let e = user_email_to_pb(UserEmail { email: "a@b.c".to_string(), user_id: UserId(v), created_at: 5 });
    assert_eq!(e.created_at, Some(Timestamp { seconds: 0, nanos: 5 }));
    let m = organization_member_to_pb(OrganizationMember {
        organization_id: OrganizationId(v),
        user_id: UserId(v),
        invited_by_id: None,
        inline_policy: None,
        created_at: 0,
    });
    assert_eq!(m.invited_by_id, None);
    let i = organization_invitation_to_pb(OrganizationInvitation {
        id: OrganizationInvitationId(v),
        user_id: Some(UserId(v)),
        organization_id: OrganizationId(v),
        email: "a@b.c".to_string(),
        invited_by_id: UserId(v),
        expires_at: None,
    });
    assert_eq!(i.id, format!("oi_{ULID_TEXT}"));
    assert_eq!(i.user_id, Some(format!("u_{ULID_TEXT}")));
    assert_eq!(i.expires_at, None);
}

#[test]
fn captcha_providers() {
    assert_eq!(captcha_check(CaptchaProvider::Unspecified), CaptchaCheck::ProviderMissing);
    assert_eq!(captcha_check(CaptchaProvider::Turnstile), CaptchaCheck::VerifyTurnstile);
}

#[test]
fn password_logins() {
    let mut u = user();
    assert_eq!(password_login(&u, "x"), Err(PasswordLoginError::NoPassword));
    u.password_hash = Some(hash_password("secret").unwrap());
    assert_eq!(password_login(&u, "secret"), Ok(()));
    assert_eq!(password_login(&u, "guess"), Err(PasswordLoginError::Password(PasswordError::InvalidPassword)));
}

#[test]
fn magic_links() {
    let p = magic_link_principal(Some(user()), UserId(1), "ada@example.com");
    assert!(!p.create_user && p.check_mfa());
    let p = magic_link_principal(None, UserId(1), "new@example.com");
    assert!(p.create_user && !p.check_mfa());
    assert_eq!(p.user.primary_email.as_deref(), Some("new@example.com"));
    let t = Duration { secs: 900, nanos: 0 };
    let reg = magic_link_request_email(false, "https://d.example", "c", t).unwrap();
    assert_eq!(reg.url, "https://d.example/register/confirm?code=c");
    let link = magic_link_request_email(true, "https://d.example", "c", t).unwrap();
    assert_eq!(link.url, "https://d.example/login/magic-link?code=c");
    assert_eq!(link.timeout_minutes, 15);
}

#[test]
fn google_workspaces() {
    assert!(should_look_up_workspace(true, Some("x.org")));
    assert!(!should_look_up_workspace(true, None));
    assert!(!should_look_up_workspace(false, Some("x.org")));
    assert_eq!(
        workspace_admin_outcome(true, 0, "x.org"),
        Some(GoogleWorkspace::UnassociatedGoogleHostedDomain("x.org".to_string()))
    );
    assert_eq!(workspace_admin_outcome(true, 2, "x.org"), None);
    assert_eq!(workspace_admin_outcome(false, 0, "x.org"), None);
}

#[test]
fn geo_info_takes_the_english_names() {
    let city = vec![("de".to_string(), "München".to_string()), ("en".to_string(), "Munich".to_string())];
    let country = vec![("fr".to_string(), "Allemagne".to_string())];
    let g = geo_info_from_names(Some(&city), Some(&country));
    assert_eq!(g.city.as_deref(), Some("Munich"));
    assert_eq!(g.country, None);
    assert!(geo_info_from_names(None, None).is_empty());
}

#[test]
fn pending_requests_expire_after_their_timeout() {
    let t = Duration { secs: 900, nanos: 0 };
    let m = scufflecloud::requests::magic_link_request(scufflecloud::ids::MagicLinkRequestId(1), None, "a@b.c".to_string(), vec![1], 10, t);
    assert_eq!(m.expires_at, 10 + 900_000_000_000);
    assert_eq!(m.user_id, None);
    let n = scufflecloud::requests::new_user_email_request(
        scufflecloud::ids::NewUserEmailRequestId(2),
        UserId(3),
        "x@y.z".to_string(),
        vec![2],
        -5,
        Duration { secs: 3600, nanos: 7 },
    );
    assert_eq!(n.expires_at, -5 + 3_600_000_000_007);
    let g = scufflecloud::requests::google_account("sub".to_string(), UserId(4), "tok".to_string(), 3599, 100);
    assert_eq!(g.access_token_expires_at, 100 + 3_599_000_000_000);
    assert_eq!(g.created_at, 100);
    assert_eq!(scufflecloud::requests::link_code(&[0xfb, 0xff]), "-_8=");
}
