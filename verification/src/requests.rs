//! The pending requests that the sign-in and e-mail flows record: their codes and when they
//! expire.
use vstd::prelude::*;

use crate::config::Duration;
use crate::encoding::{base64_url_safe, encode_base64_url_safe};
use crate::ids::{MagicLinkRequestId, NewUserEmailRequestId, UserId};
use crate::models::{MagicLinkRequest, NewUserEmailRequest, UserEmail, UserGoogleAccount};
use crate::sessions::{time_after, time_in_range};

verus! {

/// The text of a code in the links of e-mails: URL-safe base64.
pub fn link_code(code: &[u8]) -> (res: String)
    ensures
        res@ == base64_url_safe(code@),
{
    encode_base64_url_safe(code)
}

/// The request that a magic link to `email` with the code `code` answers, made at `now` and
/// valid for `timeout`.
pub fn magic_link_request(
    id: MagicLinkRequestId,
    user_id: Option<UserId>,
    email: String,
    code: Vec<u8>,
    now: i128,
    timeout: Duration,
) -> (res: MagicLinkRequest)
    requires
        timeout.wf(),
        time_in_range(now + timeout.total_nanos()),
    ensures
        res.id == id,
        res.user_id == user_id,
        res.email == email,
        res.code == code,
        res.expires_at == now + timeout.total_nanos(),
{
    MagicLinkRequest { id, user_id, email, code, expires_at: time_after(now, timeout) }
}

/// The request to add `email` to the user `user_id`, confirmed by `code`, made at `now` and
/// valid for `timeout`.
pub fn new_user_email_request(
    id: NewUserEmailRequestId,
    user_id: UserId,
    email: String,
    code: Vec<u8>,
    now: i128,
    timeout: Duration,
) -> (res: NewUserEmailRequest)
    requires
        timeout.wf(),
        time_in_range(now + timeout.total_nanos()),
    ensures
        res.id == id,
        res.user_id == user_id,
        res.email == email,
        res.code == code,
        res.expires_at == now + timeout.total_nanos(),
{
    NewUserEmailRequest { id, user_id, email, code, expires_at: time_after(now, timeout) }
}

/// The most seconds that `chrono`'s `TimeDelta::seconds` takes: `i64::MAX` milliseconds.
pub open spec fn max_delta_seconds() -> int {
    9_223_372_036_854_775int
}

/// The Google account `sub` linked to `user_id` at `now`, with an access token that expires
/// `expires_in` seconds later.
pub fn google_account(sub: String, user_id: UserId, access_token: String, expires_in: u64, now: i128) -> (res:
    UserGoogleAccount)
    requires
        expires_in <= max_delta_seconds(),
        time_in_range(now + expires_in * 1_000_000_000),
        time_in_range(now as int),
    ensures
        res.sub == sub,
        res.user_id == user_id,
        res.access_token == access_token,
        res.access_token_expires_at == now + expires_in * 1_000_000_000,
        res.created_at == now,
{
    let expires_at = time_after(now, Duration { secs: expires_in, nanos: 0 });
    UserGoogleAccount { sub, user_id, access_token, access_token_expires_at: expires_at, created_at: now }
}

/// Why a confirmation of a new e-mail address was refused.
#[derive(Debug, Clone, Copy, PartialEq, Eq, Structural)]
pub enum NewEmailError {
    /// No live request for the address carries the code.
    NotFound,
    /// The address already belongs to a user.
    AlreadyExists,
}

/// The address that a confirmation adds to the user `user_id` at `now`: the one of `request`,
/// the live request that carries the confirmation's code (`None` where there is none), unless
/// the address is taken already (`email_taken`).
pub fn new_email_outcome(request: Option<NewUserEmailRequest>, email_taken: bool, user_id: UserId, now: i128) -> (res:
    Result<UserEmail, NewEmailError>)
    ensures
        res == Err::<UserEmail, NewEmailError>(NewEmailError::NotFound) <==> request is None,
        res == Err::<UserEmail, NewEmailError>(NewEmailError::AlreadyExists) <==> (request is Some && email_taken),
        res matches Ok(e) ==> e.email == request->0.email && e.user_id == user_id && e.created_at == now,
{
    match request {
        None => Err(NewEmailError::NotFound),
        Some(r) => if email_taken {
            Err(NewEmailError::AlreadyExists)
        } else {
            Ok(UserEmail { email: r.email, user_id, created_at: now })
        },
    }
}

} // verus!

