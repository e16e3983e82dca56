use scufflecloud::cedar::{is_authorized, Action, AuthorizationError, CoreApplication, JsonEntityUid, Unauthenticated};
use scufflecloud::entity_type_name::EntityTypeName;
use scufflecloud::geoip::IpAddress;
use scufflecloud::ids::UserId;
use scufflecloud::models::{DeviceAlgorithm, UserSession};

const SCHEMA: &str = r#"
entity User;
entity Application;
entity Unauthenticated;
action "get_user" appliesTo {
  principal: [User],
  resource: [User],
  context: { user_session_mfa_pending?: Bool }
};
action "login_with_google" appliesTo {
  principal: [Unauthenticated],
  resource: [Application],
  context: {}
};
"#;

const POLICIES: &str = r#"
permit(principal, action == Action::"get_user", resource)
when { principal == resource && !(context has user_session_mfa_pending && context.user_session_mfa_pending) };
permit(principal, action == Action::"login_with_google", resource);
"#;

const ENTITIES: &str = r#"[
  {"uid": {"type": "User", "id": "A"}, "attrs": {}, "parents": []},
  {"uid": {"type": "User", "id": "B"}, "attrs": {}, "parents": []},
  {"uid": {"type": "Unauthenticated", "id": "unauthenticated"}, "attrs": {}, "parents": []},
  {"uid": {"type": "Application", "id": "core"}, "attrs": {}, "parents": []}
]"#;

fn user(id: &str) -> JsonEntityUid {
    JsonEntityUid { entity_type: EntityTypeName::new("User"), id: id.to_string() }
}

fn session(mfa_pending: bool) -> UserSession {
    UserSession {
        user_id: UserId(1),
        device_fingerprint: vec![1],
        device_algorithm: DeviceAlgorithm::RsaOaepSha256,
        device_pk_data: vec![2],
        last_used_at: 0,
        last_ip: IpAddress::V4(1),
        token_id: None,
        token: None,
        token_expires_at: None,
        expires_at: 10,
        mfa_pending,
    }
}

#[test]
fn the_engine_allows_what_the_policies_permit() {
    let s = session(false);
    let r = is_authorized(POLICIES, SCHEMA, Some(&s), &user("A"), &Action::GetUser.entity_uid(), &user("A"), ENTITIES);
    assert!(r.is_ok(), "{r:?}");
    let r = is_authorized(
        POLICIES,
        SCHEMA,
        None,
        &Unauthenticated.entity_uid(),
        &Action::LoginWithGoogle.entity_uid(),
        &CoreApplication.entity_uid(),
        ENTITIES,
    );
    assert!(r.is_ok(), "{r:?}");
}

#[test]
fn a_denial_names_who_may_not_do_what_on_which_resource() {
    let s = session(false);
    match is_authorized(POLICIES, SCHEMA, Some(&s), &user("A"), &Action::GetUser.entity_uid(), &user("B"), ENTITIES) {
        Err(AuthorizationError::Denied(d)) => {
            assert_eq!(d.message, r#"User::"A" is not authorized to perform Action::"get_user" on User::"B""#);
            assert_eq!(d.resource.id, "B");
        }
        other => panic!("expected a denial, got {other:?}"),
    }
}

#[test]
fn a_session_waiting_for_its_second_factor_is_denied() {
    let s = session(true);
    let r = is_authorized(POLICIES, SCHEMA, Some(&s), &user("A"), &Action::GetUser.entity_uid(), &user("A"), ENTITIES);
    assert!(matches!(r, Err(AuthorizationError::Denied(_))), "{r:?}");
}

#[test]
fn malformed_inputs_are_reported() {
    let a = Action::GetUser.entity_uid();
    assert!(matches!(
        is_authorized("permit(", SCHEMA, None, &user("A"), &a, &user("A"), ENTITIES),
        Err(AuthorizationError::InvalidPolicies)
    ));
    assert!(matches!(
        is_authorized(POLICIES, "entity ;", None, &user("A"), &a, &user("A"), ENTITIES),
        Err(AuthorizationError::InvalidSchema)
    ));
    let s = session(false);
    assert!(matches!(
        is_authorized(
            POLICIES,
            SCHEMA,
            Some(&s),
            &Unauthenticated.entity_uid(),
            &Action::LoginWithGoogle.entity_uid(),
            &CoreApplication.entity_uid(),
            ENTITIES
        ),
        Err(AuthorizationError::InvalidContext)
    ));
    assert!(matches!(
        is_authorized(POLICIES, SCHEMA, None, &CoreApplication.entity_uid(), &a, &user("A"), ENTITIES),
        Err(AuthorizationError::InvalidRequest)
    ));
    assert!(matches!(
        is_authorized(POLICIES, SCHEMA, None, &user("A"), &a, &user("A"), "not json"),
        Err(AuthorizationError::InvalidEntities)
    ));
}
