//! Sign-in with Google: the authorization URL, the state that ties the callback to the device
//! that started it, the checks on the token response, and the user a first sign-in creates.
use vstd::prelude::*;

use crate::emails::{join_url, url_joined};
use crate::encoding::{
    base64_url_safe, base64_url_safe_decoded, base64_url_safe_no_pad_decoded, decode_base64_url_safe,
    decode_base64_url_safe_no_pad, encode_base64_url_safe, has_percent_sign, sha256,
    sha256_digest, url_decode, url_decoded, url_encode, url_encoded,
};
use crate::headers::text_eq;
use crate::ids::UserId;
use crate::models::User;
use crate::sessions::Device;
use crate::text::{find_char, index_of_from, lemma_index_of_from, normalize_email, normalized_email, substring};

verus! {

/// The scope that lets the service read a Google Workspace user from the directory API.
pub open spec fn admin_directory_scope() -> Seq<char> {
    "https://www.googleapis.com/auth/admin.directory.user.readonly"@
}

/// The URL on the dashboard that Google redirects to after a sign-in.
pub fn redirect_uri(dashboard_origin: &str) -> (res: Option<String>)
    ensures
        url_joined(dashboard_origin@, "/oauth2-callback/google"@) == match res {
            Some(s) => Some(s@),
            None => None,
        },
{
    join_url(dashboard_origin, "/oauth2-callback/google")
}

/// The authorization URL for the client `client_id` with the redirect URI `redirect` and the
/// state `state`: the client identifier as it is, the redirect URI and the state URL-encoded,
/// and the four scopes joined by encoded spaces.
pub open spec fn authorization_url_spec(client_id: Seq<char>, redirect: Seq<char>, state: Seq<char>) -> Seq<char> {
    "https://accounts.google.com/o/oauth2/v2/auth?client_id="@ + client_id + "&redirect_uri="@
        + url_encoded(redirect) + "&response_type=code&scope="@
        + "openid%20profile%20email%20https://www.googleapis.com/auth/admin.directory.user.readonly"@
        + "&state="@ + url_encoded(state)
}

/// The URL that sends a user to Google's consent page. `None` where the redirect URI cannot
/// be joined to the dashboard origin.
pub fn authorization_url(client_id: &str, dashboard_origin: &str, state: &str) -> (res: Option<String>)
    ensures
        url_joined(dashboard_origin@, "/oauth2-callback/google"@) is Some <==> res is Some,
        res matches Some(u) ==> Some(u@) == match url_joined(dashboard_origin@, "/oauth2-callback/google"@) {
            Some(r) => Some(authorization_url_spec(client_id@, r, state@)),
            None => None,
        },
{
    let redirect = match redirect_uri(dashboard_origin) {
        Some(r) => r,
        None => {
            return None;
        },
    };
    let url = String::from_str("https://accounts.google.com/o/oauth2/v2/auth?client_id=")
        .concat(client_id)
        .concat("&redirect_uri=")
        .concat(url_encode(redirect.as_str()).as_str())
        .concat("&response_type=code&scope=")
        .concat(
            "openid%20profile%20email%20https://www.googleapis.com/auth/admin.directory.user.readonly",
        )
        .concat("&state=")
        .concat(url_encode(state).as_str());
    Some(url)
}

/// The state of a sign-in started by the device with the public key `public_key_data`: the
/// URL-safe base64 text of the key's SHA-256 fingerprint.
pub open spec fn login_state_spec(public_key_data: Seq<u8>) -> Seq<char> {
    base64_url_safe(sha256(public_key_data))
}

/// The state for a sign-in started by the device with the public key `public_key_data`.
pub fn login_state(public_key_data: &[u8]) -> (res: String)
    ensures
        res@ == login_state_spec(public_key_data@),
        !has_percent_sign(res@),
        base64_url_safe_decoded(res@) == Some(sha256(public_key_data@)),
{
    let fingerprint = sha256_digest(public_key_data);
    let state = encode_base64_url_safe(fingerprint.as_slice());
    assert(!state@.contains('%')) by {
        if state@.contains('%') {
            let k = choose|k: int| 0 <= k < state@.len() && state@[k] == '%';
            assert(state@[k] == '%');
        }
    }
    state
}

/// The URL that starts a sign-in with Google for the device with the public key
/// `public_key_data`: the state it carries is the device's login state. `None` where the
/// redirect URI cannot be joined to the dashboard origin.
pub fn login_with_google_url(client_id: &str, dashboard_origin: &str, public_key_data: &[u8]) -> (res: Option<String>)
    ensures
        url_joined(dashboard_origin@, "/oauth2-callback/google"@) is Some <==> res is Some,
        res matches Some(u) ==> Some(u@) == match url_joined(dashboard_origin@, "/oauth2-callback/google"@) {
            Some(r) => Some(authorization_url_spec(client_id@, r, login_state_spec(public_key_data@))),
            None => None,
        },
{
    let state = login_state(public_key_data);
    authorization_url(client_id, dashboard_origin, state.as_str())
}

/// Why the state of a sign-in callback was refused.
#[derive(Debug, Clone, Copy, PartialEq, Eq, Structural)]
pub enum LoginStateError {
    /// The state is not URL-encoded UTF-8, or not URL-safe base64.
    Undecodable,
    /// The state belongs to another device.
    FingerprintMismatch,
}

/// What checking the callback's `state` against the device with the public key
/// `public_key_data` answers: the state, URL-decoded and then base64-decoded, must be the
/// SHA-256 fingerprint of the key.
pub open spec fn login_state_outcome(public_key_data: Seq<u8>, state: Seq<char>) -> Result<(), LoginStateError> {
    match url_decoded(state) {
        None => Err(LoginStateError::Undecodable),
        Some(t) => match base64_url_safe_decoded(t) {
            None => Err(LoginStateError::Undecodable),
            Some(b) => if b == sha256(public_key_data) {
                Ok(())
            } else {
                Err(LoginStateError::FingerprintMismatch)
            },
        },
    }
}

/// `a@ == b@` for byte vectors.
fn bytes_eq(a: &Vec<u8>, b: &Vec<u8>) -> (res: bool)
    ensures
        res == (a@ == b@),
{
    if a.len() != b.len() {
        return false;
    }
    let mut k: usize = 0;
    while k < a.len()
        invariant
            a@.len() == b@.len(),
            k <= a@.len(),
            forall|m: int| 0 <= m < k ==> a@[m] == b@[m],
        decreases a@.len() - k,
    {
        if a[k] != b[k] {
            return false;
        }
        k = k + 1;
    }
    assert(a@ =~= b@);
    true
}

/// Checks that the callback of a sign-in with Google comes back to the device that started it.
pub fn check_login_state(public_key_data: &[u8], state: &str) -> (res: Result<(), LoginStateError>)
    ensures
        res == login_state_outcome(public_key_data@, state@),
        !has_percent_sign(state@) && base64_url_safe_decoded(state@) == Some(sha256(public_key_data@))
            ==> res is Ok,
        !has_percent_sign(state@) && base64_url_safe_decoded(state@) is Some && base64_url_safe_decoded(
            state@,
        )->0 != sha256(public_key_data@) ==> res == Err::<(), LoginStateError>(
            LoginStateError::FingerprintMismatch,
        ),
{
    let fingerprint = sha256_digest(public_key_data);
    let decoded = match url_decode(state) {
        Some(d) => d,
        None => {
            return Err(LoginStateError::Undecodable);
        },
    };
    let bytes = match decode_base64_url_safe(decoded.as_str()) {
        Some(b) => b,
        None => {
            return Err(LoginStateError::Undecodable);
        },
    };
    if bytes_eq(&fingerprint, &bytes) {
        Ok(())
    } else {
        Err(LoginStateError::FingerprintMismatch)
    }
}

/// Why the callback of a sign-in with Google was refused before any work.
#[derive(Debug, Clone, Copy, PartialEq, Eq, Structural)]
pub enum GoogleCallbackError {
    /// The callback names no device.
    MissingDevice,
    /// The state does not come back to the device.
    State(LoginStateError),
}

/// The callback of a sign-in with Google: the authorization code that Google returned, the
/// state that came back with it, and the device that asks for the session.
#[derive(Debug, Clone)]
pub struct CompleteLoginWithGoogleRequest {
    pub code: String,
    pub state: String,
    pub device: Option<Device>,
}

impl CompleteLoginWithGoogleRequest {
    /// Checks the callback before any work: it must name the device, and its state must be the
    /// login state of that device. The state that `login_state` gives for a device (no `%`, and
    /// base64 of the device key's SHA-256 fingerprint) passes for that device, and for a device
    /// whose key has another fingerprint it is a fingerprint mismatch.
    pub fn validate(&self) -> (res: Result<(), GoogleCallbackError>)
        ensures
            res == Err::<(), GoogleCallbackError>(GoogleCallbackError::MissingDevice) <==> self.device is None,
            self.device matches Some(d) ==> res == match login_state_outcome(d.public_key_data@, self.state@) {
                Ok(()) => Ok::<(), GoogleCallbackError>(()),
                Err(e) => Err(GoogleCallbackError::State(e)),
            },
            self.device matches Some(d) ==> (!has_percent_sign(self.state@) && base64_url_safe_decoded(
                self.state@,
            ) == Some(sha256(d.public_key_data@)) ==> res is Ok),
            self.device matches Some(d) ==> (!has_percent_sign(self.state@) && base64_url_safe_decoded(
                self.state@,
            ) is Some && base64_url_safe_decoded(self.state@)->0 != sha256(d.public_key_data@) ==> res
                == Err::<(), GoogleCallbackError>(
                GoogleCallbackError::State(LoginStateError::FingerprintMismatch),
            )),
    {
        match &self.device {
            None => Err(GoogleCallbackError::MissingDevice),
            Some(d) => match check_login_state(d.public_key_data.as_slice(), self.state.as_str()) {
                Ok(()) => Ok(()),
                Err(e) => Err(GoogleCallbackError::State(e)),
            },
        }
    }
}

/// `sub` occurs in `s`, as `str::contains` finds it.
pub open spec fn contains_text(s: Seq<char>, sub: Seq<char>) -> bool {
    exists|i: int| 0 <= i && i + sub.len() <= s.len() && #[trigger] s.subrange(i, i + sub.len()) == sub
}

/// Whether `sub` occurs in `s`.
pub fn text_contains(s: &str, sub: &str) -> (res: bool)
    ensures
        res == contains_text(s@, sub@),
{
    let n = s.unicode_len();
    let m = sub.unicode_len();
    if m > n {
        assert forall|i: int| 0 <= i && i + m <= n implies #[trigger] s@.subrange(i, i + m) != sub@ by {}
        return false;
    }
    if m == 0 {
        assert(s@.subrange(0, 0 + sub@.len() as int) =~= sub@);
        return true;
    }
    let mut i: usize = 0;
    while i <= n - m
        invariant
            n == s@.len(),
            m == sub@.len(),
            0 < m <= n,
            i <= n - m + 1,
            forall|j: int| 0 <= j < i ==> #[trigger] s@.subrange(j, j + m) != sub@,
        decreases n - m + 1 - i,
    {
        let piece = substring(s, i, i + m);
        if text_eq(piece.as_str(), sub) {
            assert(s@.subrange(i as int, i + m) == sub@);
            return true;
        }
        i = i + 1;
    }
    false
}

/// Why Google's token response was refused.
#[derive(Debug, Clone, PartialEq, Eq)]
pub enum GoogleTokenError {
    /// The token is not a bearer token; the type it has.
    InvalidTokenType(String),
    /// The token lacks one of the scopes the service needs; the first one missing.
    MissingScope(String),
}

/// The first of the scopes `openid`, `profile` and `email` that `scope` does not contain.
pub open spec fn missing_scope(scope: Seq<char>) -> Option<Seq<char>> {
    if !contains_text(scope, "openid"@) {
        Some("openid"@)
    } else if !contains_text(scope, "profile"@) {
        Some("profile"@)
    } else if !contains_text(scope, "email"@) {
        Some("email"@)
    } else {
        None
    }
}

/// A token grants what a sign-in needs exactly when its scope names each of `openid`, `profile`
/// and `email`; a scope that lacks `email` alone is reported as missing `email`.
pub proof fn lemma_required_scopes(scope: Seq<char>)
    ensures
        missing_scope(scope) is None <==> (contains_text(scope, "openid"@) && contains_text(
            scope,
            "profile"@,
        ) && contains_text(scope, "email"@)),
        contains_text(scope, "openid"@) && contains_text(scope, "profile"@) && !contains_text(
            scope,
            "email"@,
        ) ==> missing_scope(scope) == Some("email"@),
        missing_scope(scope) matches Some(m) ==> !contains_text(scope, m),
{
}

/// Checks Google's token response: the token must be a `Bearer` token, and its scope must
/// contain `openid`, `profile` and `email`.
pub fn check_google_token(token_type: &str, scope: &str) -> (res: Result<(), GoogleTokenError>)
    ensures
        token_type@ != "Bearer"@ ==> (res matches Err(GoogleTokenError::InvalidTokenType(t)) && t@
            == token_type@),
        token_type@ == "Bearer"@ ==> match missing_scope(scope@) {
            None => res is Ok,
            Some(m) => res matches Err(GoogleTokenError::MissingScope(s)) && s@ == m,
        },
        res is Ok <==> (token_type@ == "Bearer"@ && contains_text(scope@, "openid"@) && contains_text(
            scope@,
            "profile"@,
        ) && contains_text(scope@, "email"@)),
        token_type@ == "Bearer"@ && contains_text(scope@, "openid"@) && contains_text(scope@, "profile"@)
            && !contains_text(scope@, "email"@) ==> (res matches Err(GoogleTokenError::MissingScope(s))
            && s@ == "email"@),
{
    if !text_eq(token_type, "Bearer") {
        return Err(GoogleTokenError::InvalidTokenType(String::from_str(token_type)));
    }
    if !text_contains(scope, "openid") {
        return Err(GoogleTokenError::MissingScope(String::from_str("openid")));
    }
    if !text_contains(scope, "profile") {
        return Err(GoogleTokenError::MissingScope(String::from_str("profile")));
    }
    if !text_contains(scope, "email") {
        return Err(GoogleTokenError::MissingScope(String::from_str("email")));
    }
    Ok(())
}

/// Whether a token's scope lets the service read the user from the Google Workspace directory.
pub fn has_admin_directory_scope(scope: &str) -> (res: bool)
    ensures
        res == contains_text(scope@, admin_directory_scope()),
{
    text_contains(scope, "https://www.googleapis.com/auth/admin.directory.user.readonly")
}

/// Why an ID token was refused.
#[derive(Debug, Clone, Copy, PartialEq, Eq, Structural)]
pub enum IdTokenError {
    /// The token does not have exactly three `.`-separated parts.
    InvalidFormat,
    /// The middle part is not URL-safe base64 without padding.
    InvalidPayload,
}

/// The payload of a JSON web token: the middle of its three `.`-separated parts, URL-safe
/// base64 without padding, decoded.
pub open spec fn id_token_payload(token: Seq<char>) -> Result<Seq<u8>, IdTokenError> {
    let i = index_of_from(token, '.', 0);
    let j = index_of_from(token, '.', i + 1);
    if i >= token.len() || j >= token.len() || index_of_from(token, '.', j + 1) < token.len() {
        Err(IdTokenError::InvalidFormat)
    } else {
        match base64_url_safe_no_pad_decoded(token.subrange(i + 1, j)) {
            Some(p) => Ok(p),
            None => Err(IdTokenError::InvalidPayload),
        }
    }
}

/// The JSON payload of Google's ID token.
pub fn deserialize_google_id_token(token: &str) -> (res: Result<Vec<u8>, IdTokenError>)
    ensures
        match id_token_payload(token@) {
            Ok(p) => res matches Ok(v) && v@ == p,
            Err(e) => res == Err::<Vec<u8>, IdTokenError>(e),
        },
{
    let n = token.unicode_len();
    let i = find_char(token, '.', 0);
    proof {
        lemma_index_of_from(token@, '.', 0);
    }
    if i >= n {
        return Err(IdTokenError::InvalidFormat);
    }
    let j = find_char(token, '.', i + 1);
    proof {
        lemma_index_of_from(token@, '.', i + 1);
    }
    if j >= n {
        return Err(IdTokenError::InvalidFormat);
    }
    let k = find_char(token, '.', j + 1);
    proof {
        lemma_index_of_from(token@, '.', j + 1);
    }
    if k < n {
        return Err(IdTokenError::InvalidFormat);
    }
    let middle = substring(token, i + 1, j);
    match decode_base64_url_safe_no_pad(middle.as_str()) {
        Some(p) => Ok(p),
        None => Err(IdTokenError::InvalidPayload),
    }
}

/// The claims of Google's ID token that the service reads.
#[derive(Debug, Clone)]
pub struct GoogleIdToken {
    pub sub: String,
    pub email: String,
    pub email_verified: bool,
    pub family_name: Option<String>,
    pub given_name: Option<String>,
    pub hd: Option<String>,
    pub name: Option<String>,
    pub picture: Option<String>,
}

/// The user that a first sign-in with Google creates under the identifier `id`: the names and
/// the picture of the token, and the normalized e-mail address as the primary one where Google
/// verified it.
pub fn new_google_user(id: UserId, token: &GoogleIdToken) -> (res: User)
    ensures
        res.id == id,
        res.preferred_name == token.name,
        res.first_name == token.given_name,
        res.last_name == token.family_name,
        res.password_hash is None,
        token.email_verified ==> (res.primary_email matches Some(e) && e@ == normalized_email(
            token.email@,
        )),
        !token.email_verified ==> res.primary_email is None,
        res.avatar_url == token.picture,
{
    let primary_email = if token.email_verified {
        Some(normalize_email(token.email.as_str()))
    } else {
        None
    };
    User {
        id,
        preferred_name: token.name.clone(),
        first_name: token.given_name.clone(),
        last_name: token.family_name.clone(),
        password_hash: None,
        primary_email,
        avatar_url: token.picture.clone(),
    }
}

/// Who a sign-in with Google signs in, and what it records.
#[derive(Debug, Clone)]
pub struct GooglePrincipal {
    /// The user signed in.
    pub user: User,
    /// The Google account was not linked to a user before this sign-in.
    pub first_login: bool,
    /// The user is new and is to be stored.
    pub create_user: bool,
    /// The user is to join the organization that claims the token's hosted domain, if one does.
    pub join_hosted_domain: bool,
}

/// The user that a sign-in with the Google ID token `token` signs in. `linked` is the user the
/// Google account is linked to, if it is; `registered` the user whose e-mail address is the
/// token's, which counts only where Google verified that address; `new_id` the identifier of
/// a user this sign-in creates. A linked user takes the token's picture as avatar. Otherwise
/// this is the account's first sign-in: it signs in the registered user, or creates one from
/// the token, and the user joins the organization of the token's hosted domain, if it names
/// one.
pub fn google_login_principal(
    linked: Option<User>,
    registered: Option<User>,
    new_id: UserId,
    token: &GoogleIdToken,
) -> (res: GooglePrincipal)
    ensures
        match linked {
            Some(u) => {
                &&& res.user.id == u.id
                &&& res.user.preferred_name == u.preferred_name
                &&& res.user.first_name == u.first_name
                &&& res.user.last_name == u.last_name
                &&& res.user.password_hash == u.password_hash
                &&& res.user.primary_email == u.primary_email
                &&& res.user.avatar_url == token.picture
                &&& !res.first_login
                &&& !res.create_user
                &&& !res.join_hosted_domain
            },
            None => {
                &&& res.first_login
                &&& res.join_hosted_domain == token.hd is Some
                &&& (token.email_verified && registered is Some) ==> (res.user == registered->0
                    && !res.create_user)
                &&& !(token.email_verified && registered is Some) ==> {
                    &&& res.create_user
                    &&& res.user.id == new_id
                    &&& res.user.preferred_name == token.name
                    &&& res.user.first_name == token.given_name
                    &&& res.user.last_name == token.family_name
                    &&& res.user.password_hash is None
                    &&& token.email_verified ==> (res.user.primary_email matches Some(e) && e@
                        == normalized_email(token.email@))
                    &&& !token.email_verified ==> res.user.primary_email is None
                    &&& res.user.avatar_url == token.picture
                }
            },
        },
{
    match linked {
        Some(u) => {
            let user = User {
                id: u.id,
                preferred_name: u.preferred_name,
                first_name: u.first_name,
                last_name: u.last_name,
                password_hash: u.password_hash,
                primary_email: u.primary_email,
                avatar_url: token.picture.clone(),
            };
            GooglePrincipal { user, first_login: false, create_user: false, join_hosted_domain: false }
        },
        None => {
            let join_hosted_domain = token.hd.is_some();
            let found = if token.email_verified {
                registered
            } else {
                None
            };
            match found {
                Some(u) => GooglePrincipal { user: u, first_login: true, create_user: false, join_hosted_domain },
                None => GooglePrincipal {
                    user: new_google_user(new_id, token),
                    first_login: true,
                    create_user: true,
                    join_hosted_domain,
                },
            }
        },
    }
}

/// What the Google Workspace directory answered for a user.
#[derive(Debug, Clone, Copy, PartialEq, Eq, Structural)]
pub enum WorkspaceLookup {
    /// The service may not read the directory: the user is treated as no workspace user.
    Forbidden,
    /// The answer carries the user; its body is read.
    Found,
    /// Any other status that is no success: the request fails with it.
    Failed(u16),
}

/// Classifies the HTTP status of the directory's answer.
pub fn workspace_lookup(status: u16) -> (res: WorkspaceLookup)
    ensures
        status == 403 ==> res == WorkspaceLookup::Forbidden,
        status != 403 && 200 <= status < 300 ==> res == WorkspaceLookup::Found,
        status != 403 && !(200 <= status < 300) ==> res == WorkspaceLookup::Failed(status),
{
    if status == 403 {
        WorkspaceLookup::Forbidden
    } else if 200 <= status && status < 300 {
        WorkspaceLookup::Found
    } else {
        WorkspaceLookup::Failed(status)
    }
}

} // verus!
