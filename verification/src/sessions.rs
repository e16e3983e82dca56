//! Creating a user session on a device: when it expires, whether it waits for a second
//! factor, the token the device receives, and the users that a first sign-in creates.
use vstd::prelude::*;

use vstd::string::StringSliceAdditionalSpecFns;

use crate::config::{Duration, TimeoutConfig};
use crate::emails::EmailAddress;
use crate::encoding::{sha256, sha256_digest};
use crate::geoip::IpAddress;
use crate::ids::{IdKind, UserId, UserSessionTokenId, format_id, id_text, new_ulid};
use crate::mfa::MfaOption;
use crate::models::{DeviceAlgorithm, User, UserSession};
use crate::text::string_from_chars;
use crate::tokens::{
    EncryptTokenError, encrypt_token, generate_random_bytes, rsa_modulus_len, rsa_oaep_sha256_ciphertexts, rsa_public_key_parses,
};

verus! {

/// The greatest distance from the Unix epoch, in nanoseconds, of the points in time the
/// library computes: 2^72 ns, about 150,000 years, inside the range of `chrono`'s dates.
pub open spec fn max_time_nanos() -> int {
    0x10_0000_0000_0000_0000int
}

/// `t` nanoseconds after the epoch is a point in time the library computes with.
pub open spec fn time_in_range(t: int) -> bool {
    -max_time_nanos() <= t <= max_time_nanos()
}

/// The point in time `d` after `now`.
pub fn time_after(now: i128, d: Duration) -> (res: i128)
    requires
        time_in_range(now + d.total_nanos()),
        d.wf(),
    ensures
        res == now + d.total_nanos(),
{
    let span: i128 = (d.secs as i128) * 1_000_000_000 + (d.nanos as i128);
    now + span
}

/// A device that asks for a session: the algorithm and the DER public key that its tokens are
/// encrypted for.
#[derive(Debug, Clone)]
pub struct Device {
    pub algorithm: DeviceAlgorithm,
    pub public_key_data: Vec<u8>,
}

/// The token a device receives with a new session.
#[derive(Debug, Clone)]
pub struct NewUserSessionToken {
    /// The token's identifier, with its prefix.
    pub id: String,
    /// The token, encrypted for the device.
    pub encrypted_token: Vec<u8>,
    /// The user's identifier, with its prefix.
    pub user_id: String,
    pub expires_at: i128,
    pub session_expires_at: i128,
    pub session_mfa_pending: bool,
    pub mfa_options: Vec<MfaOption>,
}

/// Why a session could not be created.
#[derive(Debug, Clone, Copy, PartialEq, Eq, Structural)]
pub enum SessionError {
    /// No random token could be drawn.
    RandomFailed,
    /// The token could not be encrypted for the device.
    EncryptToken(EncryptTokenError),
}

/// When a new session expires: a session that waits for a second factor lasts as long as the
/// second factor may take, any other as long as a session lasts.
pub open spec fn session_expires_at(now: int, mfa_pending: bool, timeouts: TimeoutConfig) -> int {
    if mfa_pending {
        now + timeouts.mfa.total_nanos()
    } else {
        now + timeouts.user_session.total_nanos()
    }
}

/// The spans that a new session reads are well formed, and the points in time they give are
/// ones the library computes with.
pub open spec fn session_times_fit(now: int, timeouts: TimeoutConfig) -> bool {
    &&& timeouts.mfa.wf()
    &&& timeouts.user_session.wf()
    &&& timeouts.user_session_token.wf()
    &&& time_in_range(now + timeouts.mfa.total_nanos())
    &&& time_in_range(now + timeouts.user_session.total_nanos())
    &&& time_in_range(now + timeouts.user_session_token.total_nanos())
}

/// The new session of `user` on `device`, which connects from `ip`, at `now`, whose token is
/// `token` with the identifier `token_id`, and what the device receives of it: the token
/// `encrypted_token`, encrypted for its key. The session waits for a second factor exactly
/// when `mfa_options` names one.
pub fn new_session(
    user: &User,
    device: Device,
    ip: IpAddress,
    mfa_options: Vec<MfaOption>,
    now: i128,
    timeouts: &TimeoutConfig,
    token_id: UserSessionTokenId,
    token: Vec<u8>,
    encrypted_token: Vec<u8>,
) -> (res: (UserSession, NewUserSessionToken))
    requires
        session_times_fit(now as int, *timeouts),
    ensures
        ({
            let (session, new_token) = res;
            &&& session.user_id == user.id
            &&& session.device_fingerprint@ == sha256(device.public_key_data@)
            &&& session.device_algorithm == device.algorithm
            &&& session.device_pk_data == device.public_key_data
            &&& session.last_used_at == now
            &&& session.last_ip == ip
            &&& session.token_id == Some(token_id)
            &&& session.token == Some(token)
            &&& session.token_expires_at == Some(
                (now + timeouts.user_session_token.total_nanos()) as i128,
            )
            &&& session.mfa_pending == (mfa_options@.len() > 0)
            &&& session.expires_at == session_expires_at(now as int, session.mfa_pending, *timeouts)
            &&& new_token.id@ == id_text(IdKind::UserSessionToken, token_id.0)
            &&& new_token.encrypted_token == encrypted_token
            &&& new_token.user_id@ == id_text(IdKind::User, user.id.0)
            &&& new_token.expires_at == session.token_expires_at->0
            &&& new_token.session_expires_at == session.expires_at
            &&& new_token.session_mfa_pending == session.mfa_pending
            &&& new_token.mfa_options@ == mfa_options@
        }),
{
    let device_fingerprint = sha256_digest(device.public_key_data.as_slice());
    let mfa_pending = mfa_options.len() > 0;
    let expires_at = if mfa_pending {
        time_after(now, timeouts.mfa)
    } else {
        time_after(now, timeouts.user_session)
    };
    let token_expires_at = time_after(now, timeouts.user_session_token);
    let new_token = NewUserSessionToken {
        id: format_id(IdKind::UserSessionToken, token_id.0),
        encrypted_token,
        user_id: format_id(IdKind::User, user.id.0),
        expires_at: token_expires_at,
        session_expires_at: expires_at,
        session_mfa_pending: mfa_pending,
        mfa_options,
    };
    let session = UserSession {
        user_id: user.id,
        device_fingerprint,
        device_algorithm: device.algorithm,
        device_pk_data: device.public_key_data,
        last_used_at: now,
        last_ip: ip,
        token_id: Some(token_id),
        token: Some(token),
        token_expires_at: Some(token_expires_at),
        expires_at,
        mfa_pending,
    };
    (session, new_token)
}

/// A new session of `user` on `device`, which connects from `ip`, at `now`. The session waits
/// for a second factor exactly when `mfa_options` names one. Its token is 32 random bytes,
/// which the device receives encrypted for its key; a key that parses and whose modulus holds
/// the token with its padding leaves only the random draw to fail. The third part of the result
/// is whom the e-mail about the new device goes to: the user's primary address under the
/// preferred name, or no one where the user has no primary address.
pub fn create_session(
    user: &User,
    device: Device,
    ip: IpAddress,
    mfa_options: Vec<MfaOption>,
    now: i128,
    timeouts: &TimeoutConfig,
) -> (res: Result<(UserSession, NewUserSessionToken, Option<EmailAddress>), SessionError>)
    requires
        session_times_fit(now as int, *timeouts),
    ensures
        !rsa_public_key_parses(device.public_key_data@) ==> res is Err,
        res matches Err(SessionError::EncryptToken(e)) ==> (e == EncryptTokenError::InvalidPublicKey
            <==> !rsa_public_key_parses(device.public_key_data@)),
        res matches Err(SessionError::EncryptToken(e)) ==> (e == EncryptTokenError::EncryptionFailed
            <==> (rsa_public_key_parses(device.public_key_data@) && 32 + 66 > rsa_modulus_len(
            device.public_key_data@,
        ))),
        rsa_public_key_parses(device.public_key_data@) && 32 + 66 <= rsa_modulus_len(
            device.public_key_data@,
        ) ==> (res is Ok || res == Err::<
            (UserSession, NewUserSessionToken, Option<EmailAddress>),
            SessionError,
        >(SessionError::RandomFailed)),
        res matches Ok((_, _, to)) ==> {
            &&& to is Some <==> user.primary_email is Some
            &&& to matches Some(r) ==> {
                &&& r.address@ == user.primary_email->0@
                &&& r.name is Some <==> user.preferred_name is Some
                &&& r.name matches Some(n) ==> n@ == user.preferred_name->0@
            }
        },
        res matches Ok((session, token, _)) ==> {
            &&& session.user_id == user.id
            &&& session.device_fingerprint@ == sha256(device.public_key_data@)
            &&& session.device_algorithm == device.algorithm
            &&& session.device_pk_data == device.public_key_data
            &&& session.last_used_at == now
            &&& session.last_ip == ip
            &&& session.token_id is Some
            &&& session.token matches Some(t) && t@.len() == 32
            &&& rsa_oaep_sha256_ciphertexts(device.public_key_data@, session.token->0@).contains(
                token.encrypted_token@,
            )
            &&& token.encrypted_token@.len() == rsa_modulus_len(device.public_key_data@)
            &&& session.token_expires_at == Some(
                (now + timeouts.user_session_token.total_nanos()) as i128,
            )
            &&& session.mfa_pending == (mfa_options@.len() > 0)
            &&& session.expires_at == session_expires_at(now as int, session.mfa_pending, *timeouts)
            &&& token.id@ == id_text(IdKind::UserSessionToken, (session.token_id->0).0)
            &&& token.user_id@ == id_text(IdKind::User, user.id.0)
            &&& token.expires_at == session.token_expires_at->0
            &&& token.session_expires_at == session.expires_at
            &&& token.session_mfa_pending == session.mfa_pending
            &&& token.mfa_options@ == mfa_options@
        },
{
    let token_id = UserSessionTokenId(new_ulid());
    let token = match generate_random_bytes() {
        Ok(t) => t,
        Err(_) => {
            return Err(SessionError::RandomFailed);
        },
    };
    let encrypted_token = match encrypt_token(
        device.algorithm,
        token.as_slice(),
        device.public_key_data.as_slice(),
    ) {
        Ok(c) => c,
        Err(e) => {
            return Err(SessionError::EncryptToken(e));
        },
    };
    let recipient = new_device_recipient(user);
    let (session, new_token) = new_session(user, device, ip, mfa_options, now, timeouts, token_id, token, encrypted_token);
    Ok((session, new_token, recipient))
}

/// Who is told of a new session on a device: the user's primary address, under the user's
/// preferred name; no one where the user has no primary address.
pub fn new_device_recipient(user: &User) -> (res: Option<EmailAddress>)
    ensures
        res is Some <==> user.primary_email is Some,
        res matches Some(r) ==> {
            &&& r.address@ == user.primary_email->0@
            &&& r.name is Some <==> user.preferred_name is Some
            &&& r.name matches Some(n) ==> n@ == user.preferred_name->0@
        },
{
    match &user.primary_email {
        None => None,
        Some(e) => {
            let name = match &user.preferred_name {
                Some(n) => Some(n.clone()),
                None => None,
            };
            Some(EmailAddress { name, address: e.clone() })
        },
    }
}

/// The lower-case hexadecimal digit of `d`, below sixteen.
pub open spec fn hex_digit(d: u8) -> char {
    if d < 10 {
        (('0' as u8) + d) as char
    } else {
        (('a' as u8) + d - 10) as char
    }
}

/// The lower-case hexadecimal text of `bytes`, two digits per byte, as `{:x}` prints a digest.
pub open spec fn hex_text(bytes: Seq<u8>) -> Seq<char>
    decreases bytes.len(),
{
    if bytes.len() == 0 {
        Seq::empty()
    } else {
        seq![hex_digit(bytes[0] / 16), hex_digit(bytes[0] % 16)] + hex_text(bytes.drop_first())
    }
}

/// The lower-case hexadecimal digit of `d`.
fn hex_digit_char(d: u8) -> (res: char)
    requires
        d < 16,
    ensures
        res == hex_digit(d),
{
    if d < 10 {
        (48u8 + d) as char
    } else {
        (87u8 + d) as char
    }
}

proof fn lemma_hex_text_push(bytes: Seq<u8>, k: int)
    requires
        0 <= k < bytes.len(),
    ensures
        hex_text(bytes.take(k + 1)) == hex_text(bytes.take(k)) + seq![
            hex_digit(bytes[k] / 16),
            hex_digit(bytes[k] % 16),
        ],
    decreases k,
{
    let t = bytes.take(k + 1);
    if k == 0 {
        assert(t.drop_first() =~= Seq::<u8>::empty());
        assert(bytes.take(0) =~= Seq::<u8>::empty());
    } else {
        lemma_hex_text_push(bytes.drop_first(), k - 1);
        assert(t.drop_first() =~= bytes.drop_first().take(k));
        assert(bytes.take(k).drop_first() =~= bytes.drop_first().take(k - 1));
        assert(hex_text(bytes.take(k)) == seq![
            hex_digit(bytes[0] / 16),
            hex_digit(bytes[0] % 16),
        ] + hex_text(bytes.drop_first().take(k - 1)));
        assert(seq![hex_digit(bytes[0] / 16), hex_digit(bytes[0] % 16)] + (hex_text(
            bytes.drop_first().take(k - 1),
        ) + seq![hex_digit(bytes[k] / 16), hex_digit(bytes[k] % 16)]) =~= (seq![
            hex_digit(bytes[0] / 16),
            hex_digit(bytes[0] % 16),
        ] + hex_text(bytes.drop_first().take(k - 1))) + seq![
            hex_digit(bytes[k] / 16),
            hex_digit(bytes[k] % 16),
        ]);
    }
}

/// The lower-case hexadecimal text of `bytes`.
pub fn hex_string(bytes: &[u8]) -> (res: String)
    ensures
        res@ == hex_text(bytes@),
{
    let mut out: Vec<char> = Vec::new();
    let mut k: usize = 0;
    while k < bytes.len()
        invariant
            k <= bytes@.len(),
            out@ == hex_text(bytes@.take(k as int)),
        decreases bytes@.len() - k,
    {
        let b = bytes[k];
        proof {
            lemma_hex_text_push(bytes@, k as int);
        }
        out.push(hex_digit_char(b / 16));
        out.push(hex_digit_char(b % 16));
        k = k + 1;
    }
    assert(bytes@.take(bytes@.len() as int) =~= bytes@);
    string_from_chars(&out)
}

/// The Gravatar image of the e-mail address `email`: an identicon of 80 pixels where the
/// address has none, looked up by the SHA-256 digest of the address.
pub open spec fn gravatar_url(email: &str) -> Seq<char> {
    "https://gravatar.com/avatar/"@ + hex_text(sha256(email.spec_bytes())) + "?s=80&d=identicon"@
}

/// The user that a sign-in with a magic link to `email`, for which no user exists yet,
/// creates under the identifier `id`: the address is its primary one, and its avatar the
/// address's Gravatar image.
pub fn new_magic_link_user(id: UserId, email: &str) -> (res: User)
    ensures
        res.id == id,
        res.preferred_name is None,
        res.first_name is None,
        res.last_name is None,
        res.password_hash is None,
        res.primary_email matches Some(e) && e@ == email@,
        res.avatar_url matches Some(a) && a@ == gravatar_url(email),
{
    let digest = sha256_digest(email.as_bytes());
    let avatar_url = String::from_str("https://gravatar.com/avatar/").concat(
        hex_string(digest.as_slice()).as_str(),
    ).concat("?s=80&d=identicon");
    User {
        id,
        preferred_name: None,
        first_name: None,
        last_name: None,
        password_hash: None,
        primary_email: Some(String::from_str(email)),
        avatar_url: Some(avatar_url),
    }
}

} // verus!
