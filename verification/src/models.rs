//! The records that the services keep. Points in time are nanoseconds since the Unix epoch.
use vstd::prelude::*;

use crate::ids::{
    MfaRecoveryCodeId, MfaTotpCredentialId, MfaWebauthnCredentialId, OrganizationId,
    MagicLinkRequestId, NewUserEmailRequestId, OrganizationInvitationId, PolicyId, ProjectId,
    RoleId, ServiceAccountId, UserId, UserSessionRequestId, UserSessionTokenId,
};

use crate::geoip::IpAddress;

verus! {

/// A user account.
#[derive(Debug, Clone)]
pub struct User {
    pub id: UserId,
    pub preferred_name: Option<String>,
    pub first_name: Option<String>,
    pub last_name: Option<String>,
    pub password_hash: Option<String>,
    pub primary_email: Option<String>,
    pub avatar_url: Option<String>,
}

/// An organization.
#[derive(Debug, Clone)]
pub struct Organization {
    pub id: OrganizationId,
    pub google_customer_id: Option<String>,
    pub google_hosted_domain: Option<String>,
    pub name: String,
    pub owner_id: UserId,
}

/// A project of an organization.
#[derive(Debug, Clone)]
pub struct Project {
    pub id: ProjectId,
    pub name: String,
    pub organization_id: OrganizationId,
}

/// An access policy of an organization, possibly bound to a project.
#[derive(Debug, Clone)]
pub struct Policy {
    pub id: PolicyId,
    pub organization_id: OrganizationId,
    pub project_id: Option<ProjectId>,
    pub name: String,
    pub description: Option<String>,
    pub policy: String,
}

/// A role of an organization.
#[derive(Debug, Clone)]
pub struct Role {
    pub id: RoleId,
    pub organization_id: OrganizationId,
    pub name: String,
    pub description: Option<String>,
    pub inline_policy: Option<String>,
}

/// A policy attached to a role.
#[derive(Debug, Clone, Copy, PartialEq, Eq, Structural)]
pub struct RolePolicy {
    pub role_id: RoleId,
    pub policy_id: PolicyId,
}

/// One of a user's e-mail addresses.
#[derive(Debug, Clone)]
pub struct UserEmail {
    pub email: String,
    pub user_id: UserId,
    pub created_at: i128,
}

/// A user's membership in an organization.
#[derive(Debug, Clone)]
pub struct OrganizationMember {
    pub organization_id: OrganizationId,
    pub user_id: UserId,
    pub invited_by_id: Option<UserId>,
    pub inline_policy: Option<String>,
    pub created_at: i128,
}

/// An invitation to join an organization, sent to an e-mail address.
#[derive(Debug, Clone)]
pub struct OrganizationInvitation {
    pub id: OrganizationInvitationId,
    pub user_id: Option<UserId>,
    pub organization_id: OrganizationId,
    pub email: String,
    pub invited_by_id: UserId,
    pub expires_at: Option<i128>,
}

/// A policy attached to a member of an organization.
#[derive(Debug, Clone, Copy, PartialEq, Eq, Structural)]
pub struct OrganizationMemberPolicy {
    pub organization_id: OrganizationId,
    pub user_id: UserId,
    pub policy_id: PolicyId,
}

/// A service account of an organization, possibly bound to a project.
#[derive(Debug, Clone)]
pub struct ServiceAccount {
    pub id: ServiceAccountId,
    pub name: String,
    pub organization_id: OrganizationId,
    pub project_id: Option<ProjectId>,
    pub inline_policy: Option<String>,
}

/// A recovery code of a user, kept as an argon2 hash in PHC string format.
#[derive(Debug, Clone)]
pub struct MfaRecoveryCode {
    pub id: MfaRecoveryCodeId,
    pub user_id: UserId,
    pub code_hash: String,
}

/// A TOTP credential of a user: the shared secret of an authenticator app.
#[derive(Debug, Clone)]
pub struct MfaTotpCredential {
    pub id: MfaTotpCredentialId,
    pub user_id: UserId,
    pub name: Option<String>,
    pub secret: Vec<u8>,
    pub last_used_at: i128,
}

/// A WebAuthn credential of a user, with the last signature counter its authenticator
/// reported.
#[derive(Debug, Clone)]
pub struct MfaWebauthnCredential {
    pub id: MfaWebauthnCredentialId,
    pub user_id: UserId,
    pub name: Option<String>,
    pub credential_id: Vec<u8>,
    pub counter: Option<i64>,
    pub last_used_at: i128,
}

/// A request from a new device for a session, which a signed-in user approves by its code.
#[derive(Debug, Clone)]
pub struct UserSessionRequest {
    pub id: UserSessionRequestId,
    pub device_name: String,
    pub device_ip: IpAddress,
    pub code: String,
    pub approved_by: Option<UserId>,
    pub expires_at: i128,
}

/// A request to sign in by a link sent to an e-mail address, with the user of that address
/// where there is one.
#[derive(Debug, Clone)]
pub struct MagicLinkRequest {
    pub id: MagicLinkRequestId,
    pub user_id: Option<UserId>,
    pub email: String,
    pub code: Vec<u8>,
    pub expires_at: i128,
}

/// A request to add an e-mail address to a user, confirmed by a code sent to it.
#[derive(Debug, Clone)]
pub struct NewUserEmailRequest {
    pub id: NewUserEmailRequestId,
    pub user_id: UserId,
    pub email: String,
    pub code: Vec<u8>,
    pub expires_at: i128,
}

/// A Google account linked to a user, with its access token.
#[derive(Debug, Clone)]
pub struct UserGoogleAccount {
    pub sub: String,
    pub user_id: UserId,
    pub access_token: String,
    pub access_token_expires_at: i128,
    pub created_at: i128,
}

/// The public key algorithm of a device.
#[derive(Debug, Clone, Copy, PartialEq, Eq, Structural)]
pub enum DeviceAlgorithm {
    RsaOaepSha256,
}

/// A user's session on one device, with the session token that the device holds.
#[derive(Debug, Clone)]
pub struct UserSession {
    pub user_id: UserId,
    pub device_fingerprint: Vec<u8>,
    pub device_algorithm: DeviceAlgorithm,
    pub device_pk_data: Vec<u8>,
    pub last_used_at: i128,
    pub last_ip: IpAddress,
    pub token_id: Option<UserSessionTokenId>,
    pub token: Option<Vec<u8>>,
    pub token_expires_at: Option<i128>,
    pub expires_at: i128,
    pub mfa_pending: bool,
}

} // verus!
