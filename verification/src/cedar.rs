//! Entities of the authorization engine: their type names and identifiers, the context of a
//! request, and what a decision of the engine answers.
use vstd::prelude::*;

use crate::encoding::{base64_standard, encode_base64_standard};
use crate::entity_type_name::{EntityTypeName, lemma_single_part_name};
use crate::ids::{IdKind, OrganizationId, ulid_decoded, ulid_string, ulid_text};
use crate::models::UserSession;

verus! {

/// An entity of the authorization engine: its type name and its identifier.
#[derive(Debug, Clone)]
pub struct JsonEntityUid {
    pub entity_type: EntityTypeName,
    pub id: String,
}

impl View for JsonEntityUid {
    type V = (Seq<char>, Seq<char>);

    open spec fn view(&self) -> (Seq<char>, Seq<char>) {
        (self.entity_type.text(), self.id@)
    }
}

/// The type of the principal of a request without a session.
fn unauthenticated_type() -> (res: EntityTypeName)
    ensures
        res.text() == "Unauthenticated"@,
{
    proof {
        reveal_strlit("Unauthenticated");
        lemma_single_part_name("Unauthenticated"@);
    }
    EntityTypeName::new("Unauthenticated")
}

/// The type of actions.
fn action_type() -> (res: EntityTypeName)
    ensures
        res.text() == "Action"@,
{
    proof {
        reveal_strlit("Action");
        lemma_single_part_name("Action"@);
    }
    EntityTypeName::new("Action")
}

/// The type of the application as a whole.
fn application_type() -> (res: EntityTypeName)
    ensures
        res.text() == "Application"@,
{
    proof {
        reveal_strlit("Application");
        lemma_single_part_name("Application"@);
    }
    EntityTypeName::new("Application")
}

/// The type of users.
fn user_type() -> (res: EntityTypeName)
    ensures
        res.text() == "User"@,
{
    proof {
        reveal_strlit("User");
        lemma_single_part_name("User"@);
    }
    EntityTypeName::new("User")
}

/// The type of requests to add an e-mail address.
fn new_user_email_request_type() -> (res: EntityTypeName)
    ensures
        res.text() == "NewUserEmailRequest"@,
{
    proof {
        reveal_strlit("NewUserEmailRequest");
        lemma_single_part_name("NewUserEmailRequest"@);
    }
    EntityTypeName::new("NewUserEmailRequest")
}

/// The type of organizations.
fn organization_type() -> (res: EntityTypeName)
    ensures
        res.text() == "Organization"@,
{
    proof {
        reveal_strlit("Organization");
        lemma_single_part_name("Organization"@);
    }
    EntityTypeName::new("Organization")
}

/// The type of TOTP credentials.
fn totp_credential_type() -> (res: EntityTypeName)
    ensures
        res.text() == "MfaTotpCredential"@,
{
    proof {
        reveal_strlit("MfaTotpCredential");
        lemma_single_part_name("MfaTotpCredential"@);
    }
    EntityTypeName::new("MfaTotpCredential")
}

/// The type of WebAuthn credentials.
fn webauthn_credential_type() -> (res: EntityTypeName)
    ensures
        res.text() == "MfaWebauthnCredential"@,
{
    proof {
        reveal_strlit("MfaWebauthnCredential");
        lemma_single_part_name("MfaWebauthnCredential"@);
    }
    EntityTypeName::new("MfaWebauthnCredential")
}

/// The type of requests for a session from another device.
fn session_request_type() -> (res: EntityTypeName)
    ensures
        res.text() == "UserSessionRequest"@,
{
    proof {
        reveal_strlit("UserSessionRequest");
        lemma_single_part_name("UserSessionRequest"@);
    }
    EntityTypeName::new("UserSessionRequest")
}

/// The type of magic link requests.
fn magic_link_request_type() -> (res: EntityTypeName)
    ensures
        res.text() == "MagicLinkRequest"@,
{
    proof {
        reveal_strlit("MagicLinkRequest");
        lemma_single_part_name("MagicLinkRequest"@);
    }
    EntityTypeName::new("MagicLinkRequest")
}

/// The type of session tokens.
fn session_token_type() -> (res: EntityTypeName)
    ensures
        res.text() == "UserSessionToken"@,
{
    proof {
        reveal_strlit("UserSessionToken");
        lemma_single_part_name("UserSessionToken"@);
    }
    EntityTypeName::new("UserSessionToken")
}

/// The type of user sessions.
fn user_session_type() -> (res: EntityTypeName)
    ensures
        res.text() == "UserSession"@,
{
    proof {
        reveal_strlit("UserSession");
        lemma_single_part_name("UserSession"@);
    }
    EntityTypeName::new("UserSession")
}

/// The type of a user's e-mail addresses.
fn user_email_type() -> (res: EntityTypeName)
    ensures
        res.text() == "UserEmail"@,
{
    proof {
        reveal_strlit("UserEmail");
        lemma_single_part_name("UserEmail"@);
    }
    EntityTypeName::new("UserEmail")
}

/// The type of linked Google accounts.
fn google_account_type() -> (res: EntityTypeName)
    ensures
        res.text() == "UserGoogleAccount"@,
{
    proof {
        reveal_strlit("UserGoogleAccount");
        lemma_single_part_name("UserGoogleAccount"@);
    }
    EntityTypeName::new("UserGoogleAccount")
}

/// The principal of a request that carries no session.
#[derive(Debug, Clone, Copy)]
pub struct Unauthenticated;

impl Unauthenticated {
    /// The entity type of the unauthenticated principal.
    pub fn entity_type() -> (res: EntityTypeName)
        ensures
            res.text() == "Unauthenticated"@,
    {
        unauthenticated_type()
    }

    /// The identifier of the unauthenticated principal.
    pub fn entity_id(&self) -> (res: String)
        ensures
            res@ == "unauthenticated"@,
    {
        String::from_str("unauthenticated")
    }

    /// The entity of the unauthenticated principal.
    pub fn entity_uid(&self) -> (res: JsonEntityUid)
        ensures
            res@ == ("Unauthenticated"@, "unauthenticated"@),
    {
        JsonEntityUid { entity_type: Self::entity_type(), id: self.entity_id() }
    }
}

/// The actions that requests ask to perform.
#[derive(Debug, Clone, Copy, PartialEq, Eq, Structural)]
pub enum Action {
    LoginWithEmailPassword,
    RequestMagicLink,
    LoginWithMagicLink,
    LoginWithGoogle,
    LoginWithWebauthn,
    GetUser,
    UpdateUser,
    ListUserEmails,
    CreateUserEmail,
    DeleteUserEmail,
    CreateWebauthnCredential,
    CompleteCreateWebauthnCredential,
    CreateWebauthnChallenge,
    UpdateWebauthnCredential,
    DeleteWebauthnCredential,
    ListWebauthnCredentials,
    CreateTotpCredential,
    CompleteCreateTotpCredential,
    UpdateTotpCredential,
    DeleteTotpCredential,
    ListTotpCredentials,
    RegenerateRecoveryCodes,
    DeleteUser,
    CreateUserSessionRequest,
    GetUserSessionRequest,
    ApproveUserSessionRequest,
    CompleteUserSessionRequest,
    ValidateMfaForUserSession,
    RefreshUserSession,
    InvalidateUserSession,
    CreateOrganization,
    GetOrganization,
    UpdateOrganization,
    ListOrganizationMembers,
    ListOrganizationsByUser,
    CreateProject,
    ListProjects,
    CreateOrganizationInvitation,
    ListOrganizationInvitationsByUser,
    ListOrganizationInvitationsByOrganization,
    GetOrganizationInvitation,
    AcceptOrganizationInvitation,
    DeclineOrganizationInvitation,
}

impl Action {
    /// The name of the action, which is its identifier in the authorization engine.
    pub open spec fn name(self) -> Seq<char> {
        match self {
            Action::LoginWithEmailPassword => "login_with_email_password"@,
            Action::RequestMagicLink => "request_magic_link"@,
            Action::LoginWithMagicLink => "login_with_magic_link"@,
            Action::LoginWithGoogle => "login_with_google"@,
            Action::LoginWithWebauthn => "login_with_webauthn"@,
            Action::GetUser => "get_user"@,
            Action::UpdateUser => "update_user"@,
            Action::ListUserEmails => "list_user_emails"@,
            Action::CreateUserEmail => "create_user_email"@,
            Action::DeleteUserEmail => "delete_user_email"@,
            Action::CreateWebauthnCredential => "create_webauthn_credential"@,
            Action::CompleteCreateWebauthnCredential => "complete_create_webauthn_credential"@,
            Action::CreateWebauthnChallenge => "create_webauthn_challenge"@,
            Action::UpdateWebauthnCredential => "update_webauthn_credential"@,
            Action::DeleteWebauthnCredential => "delete_webauthn_credential"@,
            Action::ListWebauthnCredentials => "list_webauthn_credentials"@,
            Action::CreateTotpCredential => "create_totp_credential"@,
            Action::CompleteCreateTotpCredential => "complete_create_totp_credential"@,
            Action::UpdateTotpCredential => "update_totp_credential"@,
            Action::DeleteTotpCredential => "delete_totp_credential"@,
            Action::ListTotpCredentials => "list_totp_credentials"@,
            Action::RegenerateRecoveryCodes => "regenerate_recovery_codes"@,
            Action::DeleteUser => "delete_user"@,
            Action::CreateUserSessionRequest => "create_user_session_request"@,
            Action::GetUserSessionRequest => "get_user_session_request"@,
            Action::ApproveUserSessionRequest => "approve_user_session_request"@,
            Action::CompleteUserSessionRequest => "complete_user_session_request"@,
            Action::ValidateMfaForUserSession => "validate_mfa_for_user_session"@,
            Action::RefreshUserSession => "refresh_user_session"@,
            Action::InvalidateUserSession => "invalidate_user_session"@,
            Action::CreateOrganization => "create_organization"@,
            Action::GetOrganization => "get_organization"@,
            Action::UpdateOrganization => "update_organization"@,
            Action::ListOrganizationMembers => "list_organization_members"@,
            Action::ListOrganizationsByUser => "list_organizations_by_user"@,
            Action::CreateProject => "create_project"@,
            Action::ListProjects => "list_projects"@,
            Action::CreateOrganizationInvitation => "create_organization_invitation"@,
            Action::ListOrganizationInvitationsByUser => "list_organization_invitations_by_user"@,
            Action::ListOrganizationInvitationsByOrganization => "list_organization_invitations_by_organization"@,
            Action::GetOrganizationInvitation => "get_organization_invitation"@,
            Action::AcceptOrganizationInvitation => "accept_organization_invitation"@,
            Action::DeclineOrganizationInvitation => "decline_organization_invitation"@,
        }
    }

    /// The name of the action.
    pub fn as_str(&self) -> (res: &'static str)
        ensures
            res@ == self.name(),
    {
        match self {
            Action::LoginWithEmailPassword => "login_with_email_password",
            Action::RequestMagicLink => "request_magic_link",
            Action::LoginWithMagicLink => "login_with_magic_link",
            Action::LoginWithGoogle => "login_with_google",
            Action::LoginWithWebauthn => "login_with_webauthn",
            Action::GetUser => "get_user",
            Action::UpdateUser => "update_user",
            Action::ListUserEmails => "list_user_emails",
            Action::CreateUserEmail => "create_user_email",
            Action::DeleteUserEmail => "delete_user_email",
            Action::CreateWebauthnCredential => "create_webauthn_credential",
            Action::CompleteCreateWebauthnCredential => "complete_create_webauthn_credential",
            Action::CreateWebauthnChallenge => "create_webauthn_challenge",
            Action::UpdateWebauthnCredential => "update_webauthn_credential",
            Action::DeleteWebauthnCredential => "delete_webauthn_credential",
            Action::ListWebauthnCredentials => "list_webauthn_credentials",
            Action::CreateTotpCredential => "create_totp_credential",
            Action::CompleteCreateTotpCredential => "complete_create_totp_credential",
            Action::UpdateTotpCredential => "update_totp_credential",
            Action::DeleteTotpCredential => "delete_totp_credential",
            Action::ListTotpCredentials => "list_totp_credentials",
            Action::RegenerateRecoveryCodes => "regenerate_recovery_codes",
            Action::DeleteUser => "delete_user",
            Action::CreateUserSessionRequest => "create_user_session_request",
            Action::GetUserSessionRequest => "get_user_session_request",
            Action::ApproveUserSessionRequest => "approve_user_session_request",
            Action::CompleteUserSessionRequest => "complete_user_session_request",
            Action::ValidateMfaForUserSession => "validate_mfa_for_user_session",
            Action::RefreshUserSession => "refresh_user_session",
            Action::InvalidateUserSession => "invalidate_user_session",
            Action::CreateOrganization => "create_organization",
            Action::GetOrganization => "get_organization",
            Action::UpdateOrganization => "update_organization",
            Action::ListOrganizationMembers => "list_organization_members",
            Action::ListOrganizationsByUser => "list_organizations_by_user",
            Action::CreateProject => "create_project",
            Action::ListProjects => "list_projects",
            Action::CreateOrganizationInvitation => "create_organization_invitation",
            Action::ListOrganizationInvitationsByUser => "list_organization_invitations_by_user",
            Action::ListOrganizationInvitationsByOrganization => "list_organization_invitations_by_organization",
            Action::GetOrganizationInvitation => "get_organization_invitation",
            Action::AcceptOrganizationInvitation => "accept_organization_invitation",
            Action::DeclineOrganizationInvitation => "decline_organization_invitation",
        }
    }

    /// The entity type of actions.
    pub fn entity_type() -> (res: EntityTypeName)
        ensures
            res.text() == "Action"@,
    {
        action_type()
    }

    /// The identifier of the action: its name.
    pub fn entity_id(&self) -> (res: String)
        ensures
            res@ == self.name(),
    {
        String::from_str(self.as_str())
    }

    /// The entity of the action.
    pub fn entity_uid(&self) -> (res: JsonEntityUid)
        ensures
            res@ == ("Action"@, self.name()),
    {
        JsonEntityUid { entity_type: Self::entity_type(), id: self.entity_id() }
    }
}

/// The resource of requests that concern no particular record, such as a login.
#[derive(Debug, Clone, Copy)]
pub struct CoreApplication;

impl CoreApplication {
    /// The entity type of the application.
    pub fn entity_type() -> (res: EntityTypeName)
        ensures
            res.text() == "Application"@,
    {
        application_type()
    }

    /// The identifier of the application.
    pub fn entity_id(&self) -> (res: String)
        ensures
            res@ == "core"@,
    {
        String::from_str("core")
    }

    /// The entity of the application.
    pub fn entity_uid(&self) -> (res: JsonEntityUid)
        ensures
            res@ == ("Application"@, "core"@),
    {
        JsonEntityUid { entity_type: Self::entity_type(), id: self.entity_id() }
    }
}

/// The entity type of the records of `kind` that are entities of the authorization engine,
/// each named after its record type.
pub open spec fn record_entity_type(kind: IdKind) -> Option<Seq<char>> {
    match kind {
        IdKind::User => Some("User"@),
        IdKind::NewUserEmailRequest => Some("NewUserEmailRequest"@),
        IdKind::Organization => Some("Organization"@),
        IdKind::MfaTotpCredential => Some("MfaTotpCredential"@),
        IdKind::MfaWebauthnCredential => Some("MfaWebauthnCredential"@),
        IdKind::UserSessionRequest => Some("UserSessionRequest"@),
        IdKind::MagicLinkRequest => Some("MagicLinkRequest"@),
        IdKind::UserSessionToken => Some("UserSessionToken"@),
        _ => None,
    }
}

/// The entity of the record of `kind` with the identifier `value`: the record's type and the
/// ULID text of the identifier, without the prefix, which reads back as the identifier.
/// `None` for the kinds of records that are no entities.
pub fn record_entity_uid(kind: IdKind, value: u128) -> (res: Option<JsonEntityUid>)
    ensures
        match record_entity_type(kind) {
            None => res is None,
            Some(t) => res is Some && res->0@ == (t, ulid_text(value)),
        },
        res matches Some(u) ==> ulid_decoded(u.id@) == Some(value),
{
    let entity_type = match kind {
        IdKind::User => user_type(),
        IdKind::NewUserEmailRequest => new_user_email_request_type(),
        IdKind::Organization => organization_type(),
        IdKind::MfaTotpCredential => totp_credential_type(),
        IdKind::MfaWebauthnCredential => webauthn_credential_type(),
        IdKind::UserSessionRequest => session_request_type(),
        IdKind::MagicLinkRequest => magic_link_request_type(),
        IdKind::UserSessionToken => session_token_type(),
        _ => {
            return None;
        },
    };
    Some(JsonEntityUid { entity_type, id: ulid_string(value) })
}

/// The identifier of a user session: the ULID text of its user, `:`, and the standard base64
/// text of its device fingerprint.
pub open spec fn user_session_id(session: UserSession) -> Seq<char> {
    ulid_text(session.user_id.0) + ":"@ + base64_standard(session.device_fingerprint@)
}

/// The entity of a user session.
pub fn user_session_entity_uid(session: &UserSession) -> (res: JsonEntityUid)
    ensures
        res@ == ("UserSession"@, user_session_id(*session)),
{
    let user = ulid_string(session.user_id.0);
    let fingerprint = encode_base64_standard(session.device_fingerprint.as_slice());
    let id = user.concat(":").concat(fingerprint.as_str());
    proof {
        reveal_strlit(":");
    }
    JsonEntityUid { entity_type: user_session_type(), id }
}

/// The entity of one of a user's e-mail addresses: the address is its identifier.
pub fn user_email_entity_uid(email: &str) -> (res: JsonEntityUid)
    ensures
        res@ == ("UserEmail"@, email@),
{
    JsonEntityUid { entity_type: user_email_type(), id: String::from_str(email) }
}

/// The entity of a linked Google account: the account's subject is its identifier.
pub fn google_account_entity_uid(sub: &str) -> (res: JsonEntityUid)
    ensures
        res@ == ("UserGoogleAccount"@, sub@),
{
    JsonEntityUid { entity_type: google_account_type(), id: String::from_str(sub) }
}

/// The parents of a user entity: the organizations that the user is a member of, in order.
pub fn user_parents(organizations: &Vec<OrganizationId>) -> (res: Vec<JsonEntityUid>)
    ensures
        res@.len() == organizations@.len(),
        forall|k: int|
            0 <= k < res@.len() ==> (#[trigger] res@[k])@ == ("Organization"@, ulid_text(
                organizations@[k].0,
            )),
{
    let mut out: Vec<JsonEntityUid> = Vec::new();
    let mut k: usize = 0;
    while k < organizations.len()
        invariant
            k <= organizations@.len(),
            out@.len() == k,
            forall|m: int|
                0 <= m < k ==> (#[trigger] out@[m])@ == ("Organization"@, ulid_text(
                    organizations@[m].0,
                )),
        decreases organizations@.len() - k,
    {
        out.push(JsonEntityUid { entity_type: organization_type(), id: ulid_string(organizations[k].0) });
        k = k + 1;
    }
    out
}

/// The context of an authorization request: whether the session that makes the request still
/// waits for its second factor, where the request comes with a session.
#[derive(Debug, Clone, Copy, PartialEq, Eq, Structural)]
pub struct AuthorizationContext {
    pub user_session_mfa_pending: Option<bool>,
}

/// The context of a request made with `user_session`, or without a session.
pub fn authorization_context(user_session: Option<&UserSession>) -> (res: AuthorizationContext)
    ensures
        res.user_session_mfa_pending == match user_session {
            Some(s) => Some(s.mfa_pending),
            None => None,
        },
{
    match user_session {
        Some(s) => AuthorizationContext { user_session_mfa_pending: Some(s.mfa_pending) },
        None => AuthorizationContext { user_session_mfa_pending: None },
    }
}

/// The decision of the authorization engine on a request.
#[derive(Debug, Clone, Copy, PartialEq, Eq, Structural)]
pub enum Decision {
    Allow,
    Deny,
}

/// The text of the entity with the type `entity_type` and the identifier `id`, as `cedar_policy`'s
/// `EntityUid` writes it.
pub uninterp spec fn cedar_uid_text(entity_type: Seq<char>, id: Seq<char>) -> Seq<char>;

/// `cedar_policy`'s `EntityTypeName::from_str` accepts `text`, the normalized form of a type name.
pub uninterp spec fn cedar_type_name_parses(text: Seq<char>) -> bool;

/// `cedar_policy`'s `PolicySet::from_str` reads `text` as a set of policies.
pub uninterp spec fn cedar_policies_parse(text: Seq<char>) -> bool;

/// `cedar_policy`'s `Schema::from_str` reads `text` as a schema in the Cedar schema format.
pub uninterp spec fn cedar_schema_parses(text: Seq<char>) -> bool;

/// `cedar_policy`'s `Context::from_json_value` accepts the JSON object with the boolean entries
/// `entries`, checked against the context that the schema read from `schema` declares for the
/// action `action` (its type name and identifier).
pub uninterp spec fn cedar_context_fits(
    entries: Seq<(Seq<char>, bool)>,
    schema: Seq<char>,
    action: (Seq<char>, Seq<char>),
) -> bool;

/// `cedar_policy`'s `Request::new` accepts the request of `principal` to perform `action` on
/// `resource` with the context `context`, validated against the schema read from `schema`.
pub uninterp spec fn cedar_request_fits(
    principal: (Seq<char>, Seq<char>),
    action: (Seq<char>, Seq<char>),
    resource: (Seq<char>, Seq<char>),
    context: (Seq<(Seq<char>, bool)>, Seq<char>, (Seq<char>, Seq<char>)),
    schema: Seq<char>,
) -> bool;

/// `cedar_policy`'s `Entities::from_json_str` reads `json`, checked against the schema read from
/// `schema`.
pub uninterp spec fn cedar_entities_read(json: Seq<char>, schema: Seq<char>) -> bool;

/// `cedar_policy`'s `Authorizer::is_authorized` allows the request `request` (principal, action,
/// resource and context) under the policies read from `policies`, with the entities read from
/// `entities` (their JSON text and the schema they were checked against).
pub uninterp spec fn cedar_allows(
    request: (
        (Seq<char>, Seq<char>),
        (Seq<char>, Seq<char>),
        (Seq<char>, Seq<char>),
        (Seq<(Seq<char>, bool)>, Seq<char>, (Seq<char>, Seq<char>)),
    ),
    policies: Seq<char>,
    entities: (Seq<char>, Seq<char>),
) -> bool;

/// A set of Cedar policies.
#[verifier::external_type_specification]
#[verifier::external_body]
pub struct ExCedarPolicySet(cedar_policy::PolicySet);

/// A Cedar schema.
#[verifier::external_type_specification]
#[verifier::external_body]
pub struct ExCedarSchema(cedar_policy::Schema);

/// A Cedar entity identifier.
#[verifier::external_type_specification]
#[verifier::external_body]
pub struct ExCedarEntityUid(cedar_policy::EntityUid);

/// The context of a Cedar request.
#[verifier::external_type_specification]
#[verifier::external_body]
pub struct ExCedarContext(cedar_policy::Context);

/// A Cedar request.
#[verifier::external_type_specification]
#[verifier::external_body]
pub struct ExCedarRequest(cedar_policy::Request);

/// A store of Cedar entities.
#[verifier::external_type_specification]
#[verifier::external_body]
pub struct ExCedarEntities(cedar_policy::Entities);

/// CedarPolicies as the engine holds them, with the text they were read from.
pub struct CedarPolicies {
    set: cedar_policy::PolicySet,
    text: Ghost<Seq<char>>,
}

impl View for CedarPolicies {
    type V = Seq<char>;

    closed spec fn view(&self) -> Seq<char> {
        self.text@
    }
}

/// A schema as the engine holds it, with the text it was read from.
pub struct CedarSchema {
    schema: cedar_policy::Schema,
    text: Ghost<Seq<char>>,
}

impl View for CedarSchema {
    type V = Seq<char>;

    closed spec fn view(&self) -> Seq<char> {
        self.text@
    }
}

/// An entity identifier as the engine holds it, with its type name and identifier.
pub struct CedarUid {
    uid: cedar_policy::EntityUid,
    name: Ghost<(Seq<char>, Seq<char>)>,
}

impl View for CedarUid {
    type V = (Seq<char>, Seq<char>);

    closed spec fn view(&self) -> (Seq<char>, Seq<char>) {
        self.name@
    }
}

/// A request context as the engine holds it, with its entries, the schema it was checked
/// against and the action it was checked for.
pub struct CedarContext {
    context: cedar_policy::Context,
    model: Ghost<(Seq<(Seq<char>, bool)>, Seq<char>, (Seq<char>, Seq<char>))>,
}

impl View for CedarContext {
    type V = (Seq<(Seq<char>, bool)>, Seq<char>, (Seq<char>, Seq<char>));

    closed spec fn view(&self) -> (Seq<(Seq<char>, bool)>, Seq<char>, (Seq<char>, Seq<char>)) {
        self.model@
    }
}

/// A request as the engine holds it, with its principal, action, resource and context.
pub struct CedarRequest {
    request: cedar_policy::Request,
    model: Ghost<
        (
            (Seq<char>, Seq<char>),
            (Seq<char>, Seq<char>),
            (Seq<char>, Seq<char>),
            (Seq<(Seq<char>, bool)>, Seq<char>, (Seq<char>, Seq<char>)),
        ),
    >,
}

impl View for CedarRequest {
    type V = (
        (Seq<char>, Seq<char>),
        (Seq<char>, Seq<char>),
        (Seq<char>, Seq<char>),
        (Seq<(Seq<char>, bool)>, Seq<char>, (Seq<char>, Seq<char>)),
    );

    closed spec fn view(&self) -> Self::V {
        self.model@
    }
}

/// CedarEntities as the engine holds them, with the JSON text they were read from and the schema
/// they were checked against.
pub struct CedarEntities {
    entities: cedar_policy::Entities,
    model: Ghost<(Seq<char>, Seq<char>)>,
}

impl View for CedarEntities {
    type V = (Seq<char>, Seq<char>);

    closed spec fn view(&self) -> (Seq<char>, Seq<char>) {
        self.model@
    }
}

/// `PolicySet::from_str`: the policies, or `None` where `text` does not parse.
#[verifier::external_body]
fn parse_policy_set(text: &str) -> (res: Option<CedarPolicies>)
    ensures
        res is Some <==> cedar_policies_parse(text@),
        res matches Some(p) ==> p@ == text@,
{
    match text.parse::<cedar_policy::PolicySet>() {
        Ok(set) => Some(CedarPolicies { set, text: Ghost(text@) }),
        Err(_) => None,
    }
}

/// `CedarSchema::from_str`: the schema, or `None` where `text` does not parse.
#[verifier::external_body]
fn parse_schema(text: &str) -> (res: Option<CedarSchema>)
    ensures
        res is Some <==> cedar_schema_parses(text@),
        res matches Some(s) ==> s@ == text@,
{
    match text.parse::<cedar_policy::Schema>() {
        Ok(schema) => Some(CedarSchema { schema, text: Ghost(text@) }),
        Err(_) => None,
    }
}

/// `EntityTypeName::from_str` of `entity_type`, then `EntityUid::from_type_name_and_id` with
/// `EntityId::new(id)`; `None` where the type name does not parse.
#[verifier::external_body]
fn cedar_uid(entity_type: &str, id: &str) -> (res: Option<CedarUid>)
    ensures
        res is Some <==> cedar_type_name_parses(entity_type@),
        res matches Some(u) ==> u@ == (entity_type@, id@),
{
    match entity_type.parse::<cedar_policy::EntityTypeName>() {
        Ok(t) => Some(
            CedarUid {
                uid: cedar_policy::EntityUid::from_type_name_and_id(t, cedar_policy::EntityId::new(id)),
                name: Ghost((entity_type@, id@)),
            },
        ),
        Err(_) => None,
    }
}

/// The same entity identifier as `cedar_uid`, written with `EntityUid`'s `Display`. The text
/// is named, not stated.
#[verifier::external_body]
fn cedar_uid_string(entity_type: &str, id: &str) -> (res: Option<String>)
    ensures
        res is Some <==> cedar_type_name_parses(entity_type@),
        res matches Some(t) ==> t@ == cedar_uid_text(entity_type@, id@),
{
    match entity_type.parse::<cedar_policy::EntityTypeName>() {
        Ok(t) => Some(cedar_policy::EntityUid::from_type_name_and_id(t, cedar_policy::EntityId::new(id)).to_string()),
        Err(_) => None,
    }
}

/// `CedarContext::from_json_value` of the JSON object with the boolean entries `entries`, checked
/// against the context that `schema` declares for `action`; `None` where it does not fit.
/// Whether it fits is named.
#[verifier::external_body]
fn cedar_context(entries: &Vec<(String, bool)>, schema: &CedarSchema, action: &CedarUid) -> (res: Option<CedarContext>)
    ensures
        res is Some <==> cedar_context_fits(entries.deep_view(), schema@, action@),
        res matches Some(c) ==> c@ == (entries.deep_view(), schema@, action@),
{
    let map: serde_json::Map<String, serde_json::Value> =
        entries.iter().map(|(k, v)| (k.clone(), serde_json::Value::Bool(*v))).collect();
    match cedar_policy::Context::from_json_value(serde_json::Value::Object(map), Some((&schema.schema, &action.uid))) {
        Ok(context) => Some(CedarContext { context, model: Ghost((entries.deep_view(), schema@, action@)) }),
        Err(_) => None,
    }
}

/// `CedarRequest::new` validated against `schema`; `None` where the request does not fit it.
/// Whether it fits is named.
#[verifier::external_body]
fn cedar_request(principal: CedarUid, action: CedarUid, resource: CedarUid, context: CedarContext, schema: &CedarSchema) -> (res:
    Option<CedarRequest>)
    ensures
        res is Some <==> cedar_request_fits(principal@, action@, resource@, context@, schema@),
        res matches Some(q) ==> q@ == (principal@, action@, resource@, context@),
{
    let model = Ghost((principal@, action@, resource@, context@));
    match cedar_policy::Request::new(principal.uid, action.uid, resource.uid, context.context, Some(&schema.schema)) {
        Ok(request) => Some(CedarRequest { request, model }),
        Err(_) => None,
    }
}

/// `CedarEntities::from_json_str` of `json` checked against `schema`; `None` where it fails.
/// Whether it reads is named.
#[verifier::external_body]
fn cedar_entities(json: &str, schema: &CedarSchema) -> (res: Option<CedarEntities>)
    ensures
        res is Some <==> cedar_entities_read(json@, schema@),
        res matches Some(e) ==> e@ == (json@, schema@),
{
    match cedar_policy::Entities::from_json_str(json, Some(&schema.schema)) {
        Ok(entities) => Some(CedarEntities { entities, model: Ghost((json@, schema@)) }),
        Err(_) => None,
    }
}

/// `Authorizer::is_authorized` of the request against the policies and entities, and the
/// decision of its response. The engine is deterministic; its decision is named.
#[verifier::external_body]
fn cedar_decision(request: &CedarRequest, policies: &CedarPolicies, entities: &CedarEntities) -> (res: Decision)
    ensures
        res == Decision::Allow <==> cedar_allows(request@, policies@, entities@),
{
    match cedar_policy::Authorizer::new().is_authorized(&request.request, &policies.set, &entities.entities).decision() {
        cedar_policy::Decision::Allow => Decision::Allow,
        cedar_policy::Decision::Deny => Decision::Deny,
    }
}

/// The message of a refused request: who is not authorized to perform what on which resource,
/// each entity as the engine writes it.
pub open spec fn denial_text(principal: (Seq<char>, Seq<char>), action: (Seq<char>, Seq<char>), resource: (
    Seq<char>,
    Seq<char>,
)) -> Seq<char> {
    cedar_uid_text(principal.0, principal.1) + " is not authorized to perform "@ + cedar_uid_text(
        action.0,
        action.1,
    ) + " on "@ + cedar_uid_text(resource.0, resource.1)
}

/// The type names of the three entities are ones the engine reads.
pub open spec fn uids_parse(principal: (Seq<char>, Seq<char>), action: (Seq<char>, Seq<char>), resource: (
    Seq<char>,
    Seq<char>,
)) -> bool {
    &&& cedar_type_name_parses(principal.0)
    &&& cedar_type_name_parses(action.0)
    &&& cedar_type_name_parses(resource.0)
}

/// The message of a refused request; `None` where a type name does not parse.
pub fn denial_message(principal: &JsonEntityUid, action: &JsonEntityUid, resource: &JsonEntityUid) -> (res: Option<
    String,
>)
    ensures
        res is Some <==> uids_parse(principal@, action@, resource@),
        res matches Some(m) ==> m@ == denial_text(principal@, action@, resource@),
{
    let p = match cedar_uid_string(principal.entity_type.as_str(), principal.id.as_str()) {
        Some(t) => t,
        None => {
            return None;
        },
    };
    let a = match cedar_uid_string(action.entity_type.as_str(), action.id.as_str()) {
        Some(t) => t,
        None => {
            return None;
        },
    };
    let r = match cedar_uid_string(resource.entity_type.as_str(), resource.id.as_str()) {
        Some(t) => t,
        None => {
            return None;
        },
    };
    Some(p.concat(" is not authorized to perform ").concat(a.as_str()).concat(" on ").concat(
        r.as_str(),
    ))
}

/// A copy of an entity identifier.
fn copy_uid(u: &JsonEntityUid) -> (res: JsonEntityUid)
    ensures
        res@ == u@,
{
    JsonEntityUid { entity_type: u.entity_type, id: u.id.clone() }
}

/// A refused request: who asked to do what on which resource, and the message that says so.
#[derive(Debug, Clone)]
pub struct AuthorizationDenied {
    pub principal: JsonEntityUid,
    pub action: JsonEntityUid,
    pub resource: JsonEntityUid,
    pub message: String,
}

/// What a request is answered given the engine's decision: it goes ahead where the engine
/// allows it, and is refused, naming its principal, action and resource, where it denies it.
pub fn authorization_outcome(
    decision: Decision,
    principal: JsonEntityUid,
    action: JsonEntityUid,
    resource: JsonEntityUid,
    message: String,
) -> (res: Result<(), AuthorizationDenied>)
    ensures
        decision == Decision::Allow <==> res is Ok,
        res matches Err(d) ==> d.principal@ == principal@ && d.action@ == action@ && d.resource@
            == resource@ && d.message == message,
{
    match decision {
        Decision::Allow => Ok(()),
        Decision::Deny => Err(AuthorizationDenied { principal, action, resource, message }),
    }
}

/// Why the engine did not allow a request.
#[derive(Debug, Clone)]
pub enum AuthorizationError {
    /// The policies do not parse.
    InvalidPolicies,
    /// The schema does not parse.
    InvalidSchema,
    /// The type name of an entity does not parse.
    InvalidEntityType,
    /// The context does not fit the schema.
    InvalidContext,
    /// The request does not fit the schema.
    InvalidRequest,
    /// The entities do not read, or do not fit the schema.
    InvalidEntities,
    /// The engine denied the request.
    Denied(AuthorizationDenied),
}

/// The entries of the context of a request made with `user_session`: whether the session
/// still waits for a second factor, or none without a session.
pub open spec fn context_entries_spec(user_session: Option<&UserSession>) -> Seq<(Seq<char>, bool)> {
    match user_session {
        Some(s) => seq![("user_session_mfa_pending"@, s.mfa_pending)],
        None => Seq::empty(),
    }
}

/// The entries of the context of a request made with `user_session`, or without a session.
fn context_entries(user_session: Option<&UserSession>) -> (res: Vec<(String, bool)>)
    ensures
        res.deep_view() == context_entries_spec(user_session),
{
    let mut entries: Vec<(String, bool)> = Vec::new();
    let context = authorization_context(user_session);
    match context.user_session_mfa_pending {
        Some(b) => entries.push((String::from_str("user_session_mfa_pending"), b)),
        None => {},
    }
    proof {
        reveal_strlit("user_session_mfa_pending");
    }
    assert(entries.deep_view() =~= context_entries_spec(user_session));
    entries
}

/// The context that a request made with `user_session` hands the engine for `action`, as the
/// engine's checks see it: its entries and the schema and action it is checked against.
pub open spec fn request_context(user_session: Option<&UserSession>, schema: Seq<char>, action: (
    Seq<char>,
    Seq<char>,
)) -> (Seq<(Seq<char>, bool)>, Seq<char>, (Seq<char>, Seq<char>)) {
    (context_entries_spec(user_session), schema, action)
}

/// Every step before the engine's decision succeeds: the policies and the schema read, the type
/// names parse, and the context, the request and the entities fit the schema.
pub open spec fn authorization_inputs_fit(
    policies: Seq<char>,
    schema: Seq<char>,
    user_session: Option<&UserSession>,
    principal: (Seq<char>, Seq<char>),
    action: (Seq<char>, Seq<char>),
    resource: (Seq<char>, Seq<char>),
    entities_json: Seq<char>,
) -> bool {
    let context = request_context(user_session, schema, action);
    &&& cedar_policies_parse(policies)
    &&& cedar_schema_parses(schema)
    &&& uids_parse(principal, action, resource)
    &&& cedar_context_fits(context.0, schema, action)
    &&& cedar_request_fits(principal, action, resource, context, schema)
    &&& cedar_entities_read(entities_json, schema)
}

/// Asks the authorization engine whether `principal` may perform `action` on `resource`, under
/// the policies `policies` and the schema `schema` (in the Cedar schema format), with the
/// entities `entities_json` (Cedar's JSON form of the principal, the action, the resource and
/// their parents) and the context of `user_session`. The policies, the schema and the type
/// names are read first; the context, the request and the entities must fit the schema, each
/// failure answered with its own error; then the request goes ahead exactly where the engine
/// allows it, and a denial carries its message.
pub fn is_authorized(
    policies: &str,
    schema: &str,
    user_session: Option<&UserSession>,
    principal: &JsonEntityUid,
    action: &JsonEntityUid,
    resource: &JsonEntityUid,
    entities_json: &str,
) -> (res: Result<(), AuthorizationError>)
    ensures
        !cedar_policies_parse(policies@) ==> res matches Err(AuthorizationError::InvalidPolicies),
        cedar_policies_parse(policies@) && !cedar_schema_parses(schema@) ==> res matches Err(
            AuthorizationError::InvalidSchema,
        ),
        cedar_policies_parse(policies@) && cedar_schema_parses(schema@) && !uids_parse(
            principal@,
            action@,
            resource@,
        ) ==> res matches Err(AuthorizationError::InvalidEntityType),
        cedar_policies_parse(policies@) && cedar_schema_parses(schema@) && uids_parse(
            principal@,
            action@,
            resource@,
        ) ==> {
            let context = request_context(user_session, schema@, action@);
            &&& !cedar_context_fits(context.0, schema@, action@) ==> (res matches Err(AuthorizationError::InvalidContext))
            &&& cedar_context_fits(context.0, schema@, action@) && !cedar_request_fits(
                principal@,
                action@,
                resource@,
                context,
                schema@,
            ) ==> (res matches Err(AuthorizationError::InvalidRequest))
            &&& cedar_context_fits(context.0, schema@, action@) && cedar_request_fits(
                principal@,
                action@,
                resource@,
                context,
                schema@,
            ) && !cedar_entities_read(entities_json@, schema@) ==> (res matches Err(AuthorizationError::InvalidEntities))
        },
        authorization_inputs_fit(
            policies@,
            schema@,
            user_session,
            principal@,
            action@,
            resource@,
            entities_json@,
        ) ==> (res is Ok <==> cedar_allows(
            (principal@, action@, resource@, request_context(user_session, schema@, action@)),
            policies@,
            (entities_json@, schema@),
        )),
        authorization_inputs_fit(
            policies@,
            schema@,
            user_session,
            principal@,
            action@,
            resource@,
            entities_json@,
        ) ==> (res is Ok || res is Err && res->Err_0 is Denied),
        res matches Err(AuthorizationError::Denied(d)) ==> {
            &&& d.principal@ == principal@
            &&& d.action@ == action@
            &&& d.resource@ == resource@
            &&& d.message@ == denial_text(principal@, action@, resource@)
        },
        res is Ok ==> authorization_inputs_fit(
            policies@,
            schema@,
            user_session,
            principal@,
            action@,
            resource@,
            entities_json@,
        ),
{
    let policy_set = match parse_policy_set(policies) {
        Some(p) => p,
        None => {
            return Err(AuthorizationError::InvalidPolicies);
        },
    };
    let schema = match parse_schema(schema) {
        Some(s) => s,
        None => {
            return Err(AuthorizationError::InvalidSchema);
        },
    };
    let p = cedar_uid(principal.entity_type.as_str(), principal.id.as_str());
    let a = cedar_uid(action.entity_type.as_str(), action.id.as_str());
    let r = cedar_uid(resource.entity_type.as_str(), resource.id.as_str());
    let (p, a, r) = match (p, a, r) {
        (Some(p), Some(a), Some(r)) => (p, a, r),
        _ => {
            return Err(AuthorizationError::InvalidEntityType);
        },
    };
    let entries = context_entries(user_session);
    let context = match cedar_context(&entries, &schema, &a) {
        Some(c) => c,
        None => {
            return Err(AuthorizationError::InvalidContext);
        },
    };
    let request = match cedar_request(p, a, r, context, &schema) {
        Some(q) => q,
        None => {
            return Err(AuthorizationError::InvalidRequest);
        },
    };
    let entities = match cedar_entities(entities_json, &schema) {
        Some(e) => e,
        None => {
            return Err(AuthorizationError::InvalidEntities);
        },
    };
    let decision = cedar_decision(&request, &policy_set, &entities);
    let message = match denial_message(principal, action, resource) {
        Some(m) => m,
        None => {
            return Err(AuthorizationError::InvalidEntityType);
        },
    };
    match authorization_outcome(
        decision,
        copy_uid(principal),
        copy_uid(action),
        copy_uid(resource),
        message,
    ) {
        Ok(()) => Ok(()),
        Err(d) => Err(AuthorizationError::Denied(d)),
    }
}

} // verus!
