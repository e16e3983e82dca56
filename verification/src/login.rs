//! The decisions of the sign-in flows: the captcha, the password, the magic link and the
//! Google Workspace of a user.
use vstd::prelude::*;

use crate::config::Duration;
use crate::emails::{LinkEmail, magic_link_email, register_with_email_email, timeout_minutes, url_joined};
use crate::ids::UserId;
use crate::mfa::{PasswordError, password_outcome, verify_password};
use crate::models::User;
use crate::sessions::{gravatar_url, new_magic_link_user};

verus! {

/// The captcha service that a sign-in request names.
#[derive(Debug, Clone, Copy, PartialEq, Eq, Structural)]
pub enum CaptchaProvider {
    Unspecified,
    Turnstile,
}

/// What a sign-in request's captcha asks for.
#[derive(Debug, Clone, Copy, PartialEq, Eq, Structural)]
pub enum CaptchaCheck {
    /// The request names no provider: it is an invalid argument.
    ProviderMissing,
    /// The token is to be verified with Cloudflare Turnstile.
    VerifyTurnstile,
}

/// What a sign-in request's captcha asks for.
pub fn captcha_check(provider: CaptchaProvider) -> (res: CaptchaCheck)
    ensures
        provider == CaptchaProvider::Unspecified <==> res == CaptchaCheck::ProviderMissing,
        provider == CaptchaProvider::Turnstile <==> res == CaptchaCheck::VerifyTurnstile,
{
    match provider {
        CaptchaProvider::Unspecified => CaptchaCheck::ProviderMissing,
        CaptchaProvider::Turnstile => CaptchaCheck::VerifyTurnstile,
    }
}

/// Why a sign-in with e-mail and password was refused.
#[derive(Debug, Clone, Copy, PartialEq, Eq, Structural)]
pub enum PasswordLoginError {
    /// The user has no password.
    NoPassword,
    /// The password was not accepted.
    Password(PasswordError),
}

/// Checks the password of a sign-in with e-mail and password.
pub fn password_login(user: &User, password: &str) -> (res: Result<(), PasswordLoginError>)
    ensures
        match &user.password_hash {
            None => res == Err::<(), PasswordLoginError>(PasswordLoginError::NoPassword),
            Some(h) => match password_outcome(h@, password@) {
                Ok(()) => res is Ok,
                Err(e) => res == Err::<(), PasswordLoginError>(PasswordLoginError::Password(e)),
            },
        },
{
    match &user.password_hash {
        None => Err(PasswordLoginError::NoPassword),
        Some(h) => match verify_password(h.as_str(), password) {
            Ok(()) => Ok(()),
            Err(e) => Err(PasswordLoginError::Password(e)),
        },
    }
}

/// The user that a magic link signs in, and whether that user is new.
#[derive(Debug, Clone)]
pub struct MagicLinkPrincipal {
    pub user: User,
    pub create_user: bool,
}

impl MagicLinkPrincipal {
    /// Whether the new session asks for a second factor: a user created by this very link has
    /// none.
    pub fn check_mfa(&self) -> (res: bool)
        ensures
            res == !self.create_user,
    {
        !self.create_user
    }
}

/// The user that a magic link for `email` signs in: the user the link was sent to, or a new
/// user with the identifier `new_id` where the link was sent to an address without a user.
pub fn magic_link_principal(existing: Option<User>, new_id: UserId, email: &str) -> (res: MagicLinkPrincipal)
    ensures
        match existing {
            Some(u) => res.user == u && !res.create_user,
            None => {
                &&& res.create_user
                &&& res.user.id == new_id
                &&& res.user.primary_email matches Some(e) && e@ == email@
                &&& res.user.avatar_url matches Some(a) && a@ == gravatar_url(email)
                &&& res.user.password_hash is None
                &&& res.user.preferred_name is None
                &&& res.user.first_name is None
                &&& res.user.last_name is None
            },
        },
{
    match existing {
        Some(u) => MagicLinkPrincipal { user: u, create_user: false },
        None => MagicLinkPrincipal { user: new_magic_link_user(new_id, email), create_user: true },
    }
}

/// The e-mail that a request for a magic link sends: a registration e-mail to an address
/// without a user, a sign-in link to one with a user. `code` is the link's code.
pub fn magic_link_request_email(user_exists: bool, dashboard_origin: &str, code: &str, timeout: Duration) -> (res:
    Option<LinkEmail>)
    ensures
        !user_exists ==> (url_joined(dashboard_origin@, "/register/confirm?code="@ + code@) is Some <==> res is Some),
        user_exists ==> (url_joined(dashboard_origin@, "/login/magic-link?code="@ + code@) is Some <==> res is Some),
        res matches Some(e) ==> e.timeout_minutes == timeout_minutes(timeout) && Some(e.url@) == url_joined(
            dashboard_origin@,
            (if user_exists { "/login/magic-link?code="@ } else { "/register/confirm?code="@ }) + code@,
        ),
{
    if user_exists {
        magic_link_email(dashboard_origin, code, timeout)
    } else {
        register_with_email_email(dashboard_origin, code, timeout)
    }
}

/// How a sign-in with Google relates the user to a Google Workspace.
#[derive(Debug, Clone, PartialEq, Eq)]
pub enum GoogleWorkspace {
    /// The user administers a workspace whose hosted domain no organization claims yet.
    UnassociatedGoogleHostedDomain(String),
    /// The user joined the organization that claims the user's hosted domain.
    Joined(crate::ids::OrganizationId),
}

/// Whether a sign-in with Google looks the user up in the Workspace directory: the token must
/// grant the directory scope and name a hosted domain.
pub fn should_look_up_workspace(has_directory_scope: bool, hosted_domain: Option<&str>) -> (res: bool)
    ensures
        res == (has_directory_scope && hosted_domain is Some),
{
    has_directory_scope && hosted_domain.is_some()
}

/// What the directory answer of a workspace administrator leads to: the organizations of the
/// administrator's Google customer take over the hosted domain `hd`; where there is none, the
/// domain is reported as unassociated. A user who is no administrator changes nothing.
pub fn workspace_admin_outcome(is_admin: bool, organizations_updated: usize, hd: &str) -> (res: Option<
    GoogleWorkspace,
>)
    ensures
        (is_admin && organizations_updated == 0) ==> (res matches Some(GoogleWorkspace::UnassociatedGoogleHostedDomain(
            d,
        )) && d@ == hd@),
        !(is_admin && organizations_updated == 0) ==> res is None,
{
    if is_admin && organizations_updated == 0 {
        Some(GoogleWorkspace::UnassociatedGoogleHostedDomain(String::from_str(hd)))
    } else {
        None
    }
}

} // verus!
