use scufflecloud::cedar::{
    authorization_context, authorization_outcome, google_account_entity_uid, record_entity_uid,
    user_email_entity_uid, user_parents, user_session_entity_uid, Action, CoreApplication, Decision,
    Unauthenticated,
};
use scufflecloud::entity_type_name::{validate, EntityTypeName, EntityTypeNameError};
use scufflecloud::geoip::IpAddress;
use scufflecloud::ids::{
    format_id, parse_id, ulid_string, IdKind, IdParseError, OrganizationId, UlidDecodeError, UserId,
};
use scufflecloud::models::{DeviceAlgorithm, UserSession};

const ULID_TEXT: &str = "01ARZ3NDEKTSV4RRFFQ69G5FAV";

fn sample_ulid() -> u128 {
    ulid::Ulid::from_string(ULID_TEXT).unwrap().0
}

#[test]
fn format_id_prefixes_the_ulid() {
    let v = sample_ulid();
    assert_eq!(format_id(IdKind::User, v), format!("u_{ULID_TEXT}"));
    assert_eq!(format_id(IdKind::MfaRecoveryCode, v), format!("mrc_{ULID_TEXT}"));
    assert_eq!(format_id(IdKind::UserSessionToken, v), format!("st_{ULID_TEXT}"));
    assert_eq!(ulid_string(v), ULID_TEXT);
}

#[test]
fn parse_id_reads_back_a_formatted_id() {
    for value in [0u128, 1, sample_ulid(), u128::MAX >> 2] {
        let text = format_id(IdKind::Organization, value);
        assert_eq!(parse_id(IdKind::Organization, &text), Ok(value));
    }
}

#[test]
fn parse_id_rejects_a_wrong_prefix() {
    let text = format_id(IdKind::User, sample_ulid());
    assert_eq!(
        parse_id(IdKind::Organization, &text),
        Err(IdParseError::PrefixMismatch(IdKind::Organization))
    );
}

#[test]
fn parse_id_rejects_bad_ulids() {
    assert_eq!(
        parse_id(IdKind::User, "u_01ARZ3NDEK"),
        Err(IdParseError::Ulid(UlidDecodeError::InvalidLength))
    );
    assert_eq!(
        parse_id(IdKind::User, "u_01ARZ3NDEKTSV4RRFFQ69G5FA!"),
        Err(IdParseError::Ulid(UlidDecodeError::InvalidChar))
    );
}

#[test]
fn entity_type_names_follow_the_grammar() {
    assert_eq!(validate("User"), Ok(()));
    assert_eq!(validate("Scuffle::Core::User_2"), Ok(()));
    assert_eq!(validate("_private"), Ok(()));
    assert_eq!(validate("if"), Err(EntityTypeNameError::ReservedKeyword));
    assert_eq!(validate("A::__cedar"), Err(EntityTypeNameError::ReservedKeyword));
    assert_eq!(validate(""), Err(EntityTypeNameError::EmptyPart));
    assert_eq!(validate("A::"), Err(EntityTypeNameError::EmptyPart));
    assert_eq!(validate("A::::B"), Err(EntityTypeNameError::EmptyPart));
    assert_eq!(validate("9Lives"), Err(EntityTypeNameError::InvalidStart('9')));
    assert_eq!(validate("Us-er"), Err(EntityTypeNameError::InvalidChar('-')));
    assert_eq!(validate("A:B"), Err(EntityTypeNameError::InvalidChar(':')));
}

#[test]
fn entity_type_name_keeps_its_text() {
    let name = EntityTypeName::new("Application");
    assert_eq!(name.as_str(), "Application");
}

#[test]
fn fixed_entities_have_their_identifiers() {
    let u = Unauthenticated.entity_uid();
    assert_eq!((u.entity_type.as_str(), u.id.as_str()), ("Unauthenticated", "unauthenticated"));
    let a = CoreApplication.entity_uid();
    assert_eq!((a.entity_type.as_str(), a.id.as_str()), ("Application", "core"));
    let g = Action::GetUser.entity_uid();
    assert_eq!((g.entity_type.as_str(), g.id.as_str()), ("Action", "get_user"));
    assert_eq!(Action::LoginWithEmailPassword.as_str(), "login_with_email_password");
    assert_eq!(
        Action::ListOrganizationInvitationsByOrganization.as_str(),
        "list_organization_invitations_by_organization"
    );
    assert_eq!(Action::DeclineOrganizationInvitation.entity_id(), "decline_organization_invitation");
}

#[test]
fn records_are_entities_by_their_ulid() {
    let v = sample_ulid();
    let u = record_entity_uid(IdKind::User, v).unwrap();
    assert_eq!((u.entity_type.as_str(), u.id.as_str()), ("User", ULID_TEXT));
    let w = record_entity_uid(IdKind::MfaWebauthnCredential, v).unwrap();
    assert_eq!(w.entity_type.as_str(), "MfaWebauthnCredential");
    assert!(record_entity_uid(IdKind::Project, v).is_none());
    let parents = user_parents(&vec![OrganizationId(v), OrganizationId(0)]);
    assert_eq!(parents.len(), 2);
    assert_eq!(parents[0].entity_type.as_str(), "Organization");
    assert_eq!(parents[0].id, ULID_TEXT);
    assert_eq!(parents[1].id, "00000000000000000000000000");
    let e = user_email_entity_uid("a@b.c");
    assert_eq!((e.entity_type.as_str(), e.id.as_str()), ("UserEmail", "a@b.c"));
    let g = google_account_entity_uid("1234");
    assert_eq!((g.entity_type.as_str(), g.id.as_str()), ("UserGoogleAccount", "1234"));
}

fn sample_session(mfa_pending: bool) -> UserSession {
    UserSession {
        user_id: UserId(sample_ulid()),
        device_fingerprint: vec![0xfb, 0xff, 0x01],
        device_algorithm: DeviceAlgorithm::RsaOaepSha256,
        device_pk_data: vec![1, 2, 3],
        last_used_at: 0,
        last_ip: IpAddress::V4(0x7f000001),
        token_id: None,
        token: None,
        token_expires_at: None,
        expires_at: 10,
        mfa_pending,
    }
}

#[test]
fn user_session_entity_joins_user_and_fingerprint() {
    let s = sample_session(false);
    let uid = user_session_entity_uid(&s);
    assert_eq!(uid.entity_type.as_str(), "UserSession");
    assert_eq!(uid.id, format!("{ULID_TEXT}:+/8B"));
}

#[test]
fn authorization_context_carries_the_mfa_flag() {
    assert_eq!(authorization_context(None).user_session_mfa_pending, None);
    let s = sample_session(true);
    assert_eq!(authorization_context(Some(&s)).user_session_mfa_pending, Some(true));
}

#[test]
fn authorization_outcome_follows_the_decision() {
    let p = Unauthenticated.entity_uid();
    let a = Action::LoginWithGoogle.entity_uid();
    let r = CoreApplication.entity_uid();
    assert!(authorization_outcome(Decision::Allow, p.clone(), a.clone(), r.clone(), "m".to_string()).is_ok());
    let denied = authorization_outcome(Decision::Deny, p, a, r, "no".to_string()).unwrap_err();
    assert_eq!(denied.message, "no");
    assert_eq!(denied.principal.id, "unauthenticated");
    assert_eq!(denied.action.id, "login_with_google");
    assert_eq!(denied.resource.id, "core");
}
