//! The records as the API presents them: identifiers with their prefixes and points in time as
//! seconds and nanoseconds.
use vstd::prelude::*;

use crate::ids::{IdKind, format_id, id_text};
use crate::geoip::IpAddress;
use crate::ip_text::{ip_string, ip_text};
use crate::models::{
    MfaTotpCredential, MfaWebauthnCredential, Organization, OrganizationInvitation,
    OrganizationMember, Project, User, UserEmail, UserSession, UserSessionRequest,
};
use crate::sessions::time_in_range;

verus! {

/// A point in time: seconds since the Unix epoch and the nanoseconds after them.
#[derive(Debug, Clone, Copy, PartialEq, Eq, Structural)]
pub struct Timestamp {
    pub seconds: i64,
    pub nanos: i32,
}

/// The timestamp of the point `t` nanoseconds after the epoch: the whole seconds rounded down,
/// and the nanoseconds from 0 to 999,999,999 after them, also before the epoch.
pub open spec fn timestamp_spec(t: int) -> Timestamp {
    Timestamp { seconds: (t / 1_000_000_000) as i64, nanos: (t % 1_000_000_000) as i32 }
}

/// The timestamp of the point `t` nanoseconds after the epoch.
pub fn timestamp(t: i128) -> (res: Timestamp)
    requires
        time_in_range(t as int),
    ensures
        res == timestamp_spec(t as int),
        res.seconds * 1_000_000_000 + res.nanos == t,
        0 <= res.nanos < 1_000_000_000,
{
    let q = t / 1_000_000_000;
    let r = t % 1_000_000_000;
    if r < 0 {
        Timestamp { seconds: (q - 1) as i64, nanos: (r + 1_000_000_000) as i32 }
    } else {
        Timestamp { seconds: q as i64, nanos: r as i32 }
    }
}

/// The creation time of a record, in milliseconds since the epoch: the first 48 bits of the
/// ULID of its identifier.
pub open spec fn created_at_ms(id: u128) -> int {
    (id / 0x1_0000_0000_0000_0000_0000) as int
}

/// The creation time of a record from the ULID of its identifier.
pub fn created_at(id: u128) -> (res: Timestamp)
    ensures
        res.seconds == created_at_ms(id) / 1000,
        res.nanos == (created_at_ms(id) % 1000) * 1_000_000,
{
    let ms: u128 = id / 0x1_0000_0000_0000_0000_0000;
    assert(ms < 0x1_0000_0000_0000) by (nonlinear_arith)
        requires
            ms == id / 0x1_0000_0000_0000_0000_0000,
            id <= u128::MAX,
    ;
    Timestamp { seconds: (ms / 1000) as i64, nanos: ((ms % 1000) * 1_000_000) as i32 }
}

/// A user as the API presents it.
#[derive(Debug, Clone)]
pub struct PbUser {
    pub id: String,
    pub preferred_name: Option<String>,
    pub first_name: Option<String>,
    pub last_name: Option<String>,
    pub primary_email: Option<String>,
    pub avatar_url: Option<String>,
    pub created_at: Option<Timestamp>,
}

/// A user as the API presents it: the password hash stays behind.
pub fn user_to_pb(user: User) -> (res: PbUser)
    ensures
        res.id@ == id_text(IdKind::User, user.id.0),
        res.preferred_name == user.preferred_name,
        res.first_name == user.first_name,
        res.last_name == user.last_name,
        res.primary_email == user.primary_email,
        res.avatar_url == user.avatar_url,
        res.created_at == Some(created_at_spec(user.id.0)),
{
    PbUser {
        id: format_id(IdKind::User, user.id.0),
        preferred_name: user.preferred_name,
        first_name: user.first_name,
        last_name: user.last_name,
        primary_email: user.primary_email,
        avatar_url: user.avatar_url,
        created_at: Some(created_at(user.id.0)),
    }
}

/// The creation time of the record with the identifier `id`.
pub open spec fn created_at_spec(id: u128) -> Timestamp {
    Timestamp {
        seconds: (created_at_ms(id) / 1000) as i64,
        nanos: ((created_at_ms(id) % 1000) * 1_000_000) as i32,
    }
}

/// An organization as the API presents it.
#[derive(Debug, Clone)]
pub struct PbOrganization {
    pub id: String,
    pub google_hosted_domain: Option<String>,
    pub name: String,
    pub owner_id: String,
    pub created_at: Option<Timestamp>,
}

/// An organization as the API presents it: the Google customer identifier stays behind.
pub fn organization_to_pb(org: Organization) -> (res: PbOrganization)
    ensures
        res.id@ == id_text(IdKind::Organization, org.id.0),
        res.google_hosted_domain == org.google_hosted_domain,
        res.name == org.name,
        res.owner_id@ == id_text(IdKind::User, org.owner_id.0),
        res.created_at == Some(created_at_spec(org.id.0)),
{
    PbOrganization {
        id: format_id(IdKind::Organization, org.id.0),
        google_hosted_domain: org.google_hosted_domain,
        name: org.name,
        owner_id: format_id(IdKind::User, org.owner_id.0),
        created_at: Some(created_at(org.id.0)),
    }
}

/// A project as the API presents it.
#[derive(Debug, Clone)]
pub struct PbProject {
    pub id: String,
    pub name: String,
    pub organization_id: String,
    pub created_at: Option<Timestamp>,
}

/// A project as the API presents it.
pub fn project_to_pb(project: Project) -> (res: PbProject)
    ensures
        res.id@ == id_text(IdKind::Project, project.id.0),
        res.name == project.name,
        res.organization_id@ == id_text(IdKind::Organization, project.organization_id.0),
        res.created_at == Some(created_at_spec(project.id.0)),
{
    PbProject {
        id: format_id(IdKind::Project, project.id.0),
        name: project.name,
        organization_id: format_id(IdKind::Organization, project.organization_id.0),
        created_at: Some(created_at(project.id.0)),
    }
}

/// A TOTP credential as the API presents it.
#[derive(Debug, Clone)]
pub struct PbTotpCredential {
    pub id: String,
    pub user_id: String,
    pub name: Option<String>,
    pub last_used_at_utc: Option<Timestamp>,
}

/// A TOTP credential as the API presents it: the secret stays behind.
pub fn totp_credential_to_pb(c: MfaTotpCredential) -> (res: PbTotpCredential)
    requires
        time_in_range(c.last_used_at as int),
    ensures
        res.id@ == id_text(IdKind::MfaTotpCredential, c.id.0),
        res.user_id@ == id_text(IdKind::User, c.user_id.0),
        res.name == c.name,
        res.last_used_at_utc == Some(timestamp_spec(c.last_used_at as int)),
{
    PbTotpCredential {
        id: format_id(IdKind::MfaTotpCredential, c.id.0),
        user_id: format_id(IdKind::User, c.user_id.0),
        name: c.name,
        last_used_at_utc: Some(timestamp(c.last_used_at)),
    }
}

/// A WebAuthn credential as the API presents it.
#[derive(Debug, Clone)]
pub struct PbWebauthnCredential {
    pub id: String,
    pub user_id: String,
    pub name: Option<String>,
    pub last_used_at_utc: Option<Timestamp>,
    pub created_at: Option<Timestamp>,
}

/// A WebAuthn credential as the API presents it: the credential and its counter stay behind.
pub fn webauthn_credential_to_pb(c: MfaWebauthnCredential) -> (res: PbWebauthnCredential)
    requires
        time_in_range(c.last_used_at as int),
    ensures
        res.id@ == id_text(IdKind::MfaWebauthnCredential, c.id.0),
        res.user_id@ == id_text(IdKind::User, c.user_id.0),
        res.name == c.name,
        res.last_used_at_utc == Some(timestamp_spec(c.last_used_at as int)),
        res.created_at == Some(created_at_spec(c.id.0)),
{
    PbWebauthnCredential {
        id: format_id(IdKind::MfaWebauthnCredential, c.id.0),
        user_id: format_id(IdKind::User, c.user_id.0),
        name: c.name,
        last_used_at_utc: Some(timestamp(c.last_used_at)),
        created_at: Some(created_at(c.id.0)),
    }
}

/// One of a user's e-mail addresses as the API presents it.
#[derive(Debug, Clone)]
pub struct PbUserEmail {
    pub email: String,
    pub created_at: Option<Timestamp>,
}

/// One of a user's e-mail addresses as the API presents it.
pub fn user_email_to_pb(e: UserEmail) -> (res: PbUserEmail)
    requires
        time_in_range(e.created_at as int),
    ensures
        res.email == e.email,
        res.created_at == Some(timestamp_spec(e.created_at as int)),
{
    PbUserEmail { email: e.email, created_at: Some(timestamp(e.created_at)) }
}

/// A membership as the API presents it.
#[derive(Debug, Clone)]
pub struct PbOrganizationMember {
    pub organization_id: String,
    pub user_id: String,
    pub invited_by_id: Option<String>,
    pub created_at: Option<Timestamp>,
}

/// A membership as the API presents it: the inline policy stays behind.
pub fn organization_member_to_pb(m: OrganizationMember) -> (res: PbOrganizationMember)
    requires
        time_in_range(m.created_at as int),
    ensures
        res.organization_id@ == id_text(IdKind::Organization, m.organization_id.0),
        res.user_id@ == id_text(IdKind::User, m.user_id.0),
        match m.invited_by_id {
            Some(i) => res.invited_by_id matches Some(t) && t@ == id_text(IdKind::User, i.0),
            None => res.invited_by_id is None,
        },
        res.created_at == Some(timestamp_spec(m.created_at as int)),
{
    let invited_by_id = match m.invited_by_id {
        Some(i) => Some(format_id(IdKind::User, i.0)),
        None => None,
    };
    PbOrganizationMember {
        organization_id: format_id(IdKind::Organization, m.organization_id.0),
        user_id: format_id(IdKind::User, m.user_id.0),
        invited_by_id,
        created_at: Some(timestamp(m.created_at)),
    }
}

/// An invitation as the API presents it.
#[derive(Debug, Clone)]
pub struct PbOrganizationInvitation {
    pub id: String,
    pub user_id: Option<String>,
    pub organization_id: String,
    pub email: String,
    pub invited_by_id: String,
    pub expires_at: Option<Timestamp>,
    pub created_at: Option<Timestamp>,
}

/// An invitation as the API presents it.
pub fn organization_invitation_to_pb(i: OrganizationInvitation) -> (res: PbOrganizationInvitation)
    requires
        i.expires_at matches Some(t) ==> time_in_range(t as int),
    ensures
        res.id@ == id_text(IdKind::OrganizationInvitation, i.id.0),
        match i.user_id {
            Some(u) => res.user_id matches Some(t) && t@ == id_text(IdKind::User, u.0),
            None => res.user_id is None,
        },
        res.organization_id@ == id_text(IdKind::Organization, i.organization_id.0),
        res.email == i.email,
        res.invited_by_id@ == id_text(IdKind::User, i.invited_by_id.0),
        match i.expires_at {
            Some(t) => res.expires_at == Some(timestamp_spec(t as int)),
            None => res.expires_at is None,
        },
        res.created_at == Some(created_at_spec(i.id.0)),
{
    let user_id = match i.user_id {
        Some(u) => Some(format_id(IdKind::User, u.0)),
        None => None,
    };
    let expires_at = match i.expires_at {
        Some(t) => Some(timestamp(t)),
        None => None,
    };
    PbOrganizationInvitation {
        id: format_id(IdKind::OrganizationInvitation, i.id.0),
        user_id,
        organization_id: format_id(IdKind::Organization, i.organization_id.0),
        email: i.email,
        invited_by_id: format_id(IdKind::User, i.invited_by_id.0),
        expires_at,
        created_at: Some(created_at(i.id.0)),
    }
}

/// The text of the network of the single address `ip`, as `ipnetwork` writes it: the address,
/// `/`, and the prefix, 32 for IPv4 and 128 for IPv6.
pub open spec fn host_network_text(ip: IpAddress) -> Seq<char> {
    ip_text(ip) + match ip {
        IpAddress::V4(_) => "/32"@,
        IpAddress::V6(_) => "/128"@,
    }
}

/// The text of the network of the single address `ip`.
pub fn host_network_string(ip: IpAddress) -> (res: String)
    ensures
        res@ == host_network_text(ip),
{
    let text = ip_string(ip);
    match ip {
        IpAddress::V4(_) => text.concat("/32"),
        IpAddress::V6(_) => text.concat("/128"),
    }
}

/// A user session as the API presents it.
#[derive(Debug, Clone)]
pub struct PbUserSession {
    pub user_id: String,
    pub device_fingerprint: Vec<u8>,
    pub last_used_at: Option<Timestamp>,
    pub last_ip: String,
    pub token_id: Option<String>,
    pub token_expires_at: Option<Timestamp>,
    pub expires_at: Option<Timestamp>,
    pub mfa_pending: bool,
}

/// A user session as the API presents it: the device's key and the token stay behind.
pub fn user_session_to_pb(s: UserSession) -> (res: PbUserSession)
    requires
        time_in_range(s.last_used_at as int),
        time_in_range(s.expires_at as int),
        s.token_expires_at matches Some(t) ==> time_in_range(t as int),
    ensures
        res.user_id@ == id_text(IdKind::User, s.user_id.0),
        res.device_fingerprint == s.device_fingerprint,
        res.last_used_at == Some(timestamp_spec(s.last_used_at as int)),
        res.last_ip@ == host_network_text(s.last_ip),
        match s.token_id {
            Some(t) => res.token_id matches Some(r) && r@ == id_text(IdKind::UserSessionToken, t.0),
            None => res.token_id is None,
        },
        match s.token_expires_at {
            Some(t) => res.token_expires_at == Some(timestamp_spec(t as int)),
            None => res.token_expires_at is None,
        },
        res.expires_at == Some(timestamp_spec(s.expires_at as int)),
        res.mfa_pending == s.mfa_pending,
{
    let token_id = match s.token_id {
        Some(t) => Some(format_id(IdKind::UserSessionToken, t.0)),
        None => None,
    };
    let token_expires_at = match s.token_expires_at {
        Some(t) => Some(timestamp(t)),
        None => None,
    };
    PbUserSession {
        user_id: format_id(IdKind::User, s.user_id.0),
        device_fingerprint: s.device_fingerprint,
        last_used_at: Some(timestamp(s.last_used_at)),
        last_ip: host_network_string(s.last_ip),
        token_id,
        token_expires_at,
        expires_at: Some(timestamp(s.expires_at)),
        mfa_pending: s.mfa_pending,
    }
}

/// A request for a session as the API presents it.
#[derive(Debug, Clone)]
pub struct PbUserSessionRequest {
    pub id: String,
    pub name: String,
    pub ip: String,
    pub approved_by: Option<String>,
    pub expires_at: Option<Timestamp>,
}

/// A request for a session as the API presents it: the code stays behind.
pub fn user_session_request_to_pb(r: UserSessionRequest) -> (res: PbUserSessionRequest)
    requires
        time_in_range(r.expires_at as int),
    ensures
        res.id@ == id_text(IdKind::UserSessionRequest, r.id.0),
        res.name == r.device_name,
        res.ip@ == host_network_text(r.device_ip),
        match r.approved_by {
            Some(u) => res.approved_by matches Some(t) && t@ == id_text(IdKind::User, u.0),
            None => res.approved_by is None,
        },
        res.expires_at == Some(timestamp_spec(r.expires_at as int)),
{
    let approved_by = match r.approved_by {
        Some(u) => Some(format_id(IdKind::User, u.0)),
        None => None,
    };
    PbUserSessionRequest {
        id: format_id(IdKind::UserSessionRequest, r.id.0),
        name: r.device_name,
        ip: host_network_string(r.device_ip),
        approved_by,
        expires_at: Some(timestamp(r.expires_at)),
    }
}

} // verus!
