//! Time-based one-time passwords: six digits, a thirty-second step, SHA-1, one step of skew,
//! issued by `scuffle.cloud`.
use vstd::prelude::*;

use crate::ids::MfaTotpCredentialId;
use crate::models::MfaTotpCredential;
use crate::tokens::generate_random_bytes;

verus! {

/// The settings of a TOTP: the number of digits of a code, the steps of skew accepted on
/// either side, the length of a step in seconds, and the issuer; the hash is SHA-1.
#[derive(Debug, Clone)]
pub struct TotpSettings {
    pub digits: usize,
    pub skew: u8,
    pub step: u64,
    pub issuer: String,
}

impl View for TotpSettings {
    type V = (usize, u8, u64, Seq<char>);

    open spec fn view(&self) -> (usize, u8, u64, Seq<char>) {
        (self.digits, self.skew, self.step, self.issuer@)
    }
}

/// The settings of this service's TOTPs: six digits, one step of skew, thirty-second steps,
/// issued by `scuffle.cloud`.
pub open spec fn scuffle_totp() -> (usize, u8, u64, Seq<char>) {
    (6, 1, 30, "scuffle.cloud"@)
}

/// The settings of this service's TOTPs.
pub fn totp_settings() -> (res: TotpSettings)
    ensures
        res@ == scuffle_totp(),
{
    TotpSettings { digits: 6, skew: 1, step: 30, issuer: String::from_str("scuffle.cloud") }
}

/// Whether `token` is a valid code at `time` (seconds since the Unix epoch) for a TOTP with
/// the settings `settings` and the secret `secret`, as `totp_rs`'s `TOTP::check` decides it.
pub uninterp spec fn totp_code_matches(
    settings: (usize, u8, u64, Seq<char>),
    secret: Seq<u8>,
    token: Seq<char>,
    time: u64,
) -> bool;

/// The `otpauth://` URL that `totp_rs`'s `TOTP::get_url` gives for the settings `settings`,
/// the secret `secret` and the account `account_name`.
pub uninterp spec fn totp_url_text(
    settings: (usize, u8, u64, Seq<char>),
    secret: Seq<u8>,
    account_name: Seq<char>,
) -> Seq<char>;

/// The PNG image of the QR code of that URL, as `TOTP::get_qr_png` draws it; `None` where it
/// fails.
pub uninterp spec fn totp_qr_png_bytes(
    settings: (usize, u8, u64, Seq<char>),
    secret: Seq<u8>,
    account_name: Seq<char>,
) -> Option<Seq<u8>>;

/// `TOTP::new` accepts the settings: six to eight digits, a secret of at least 128 bits, and
/// an issuer and an account name without `:`.
pub open spec fn totp_accepts(settings: (usize, u8, u64, Seq<char>), secret: Seq<u8>, account_name: Seq<
    char,
>) -> bool {
    &&& 6 <= settings.0 <= 8
    &&& secret.len() >= 16
    &&& !settings.3.contains(':')
    &&& !account_name.contains(':')
}

/// `TOTP::check` at `time` neither underflows nor overflows: a step is longer than zero, the
/// skew does not reach back before the epoch, and the last step it tries fits in `u64`.
pub open spec fn check_time_fits(settings: (usize, u8, u64, Seq<char>), time: u64) -> bool {
    &&& settings.2 > 0
    &&& settings.1 <= time / settings.2
    &&& (time / settings.2 + settings.1) * settings.2 <= u64::MAX
}

/// `totp_rs`'s `TOTP::new(SHA1, digits, skew, step, secret, Some(issuer), "")`, then
/// `TOTP::check(token, time)` where it was built. The check itself is named, not stated.
#[verifier::external_body]
fn totp_check(settings: &TotpSettings, secret: &[u8], token: &str, time: u64) -> (res: Option<bool>)
    requires
        check_time_fits(settings@, time),
    ensures
        res is None <==> !totp_accepts(settings@, secret@, Seq::empty()),
        res matches Some(b) ==> b == totp_code_matches(settings@, secret@, token@, time),
{
    match totp_rs::TOTP::new(
        totp_rs::Algorithm::SHA1,
        settings.digits,
        settings.skew,
        settings.step,
        secret.to_vec(),
        Some(settings.issuer.clone()),
        String::new(),
    ) {
        Ok(t) => Some(t.check(token, time)),
        Err(_) => None,
    }
}

/// `TOTP::new` with the settings and the account `account_name`, then `TOTP::get_url`.
#[verifier::external_body]
fn totp_url(settings: &TotpSettings, secret: &[u8], account_name: &str) -> (res: Option<String>)
    ensures
        res is None <==> !totp_accepts(settings@, secret@, account_name@),
        res matches Some(u) ==> u@ == totp_url_text(settings@, secret@, account_name@),
{
    match totp_rs::TOTP::new(
        totp_rs::Algorithm::SHA1,
        settings.digits,
        settings.skew,
        settings.step,
        secret.to_vec(),
        Some(settings.issuer.clone()),
        account_name.to_string(),
    ) {
        Ok(t) => Some(t.get_url()),
        Err(_) => None,
    }
}

/// `TOTP::new` with the settings and the account `account_name`, then `TOTP::get_qr_png`; the
/// outer `None` where `TOTP::new` fails, the inner one where drawing fails.
#[verifier::external_body]
fn totp_qr_png(settings: &TotpSettings, secret: &[u8], account_name: &str) -> (res: Option<Option<Vec<u8>>>)
    ensures
        res is None <==> !totp_accepts(settings@, secret@, account_name@),
        res matches Some(q) ==> match q {
            Some(png) => totp_qr_png_bytes(settings@, secret@, account_name@) == Some(png@),
            None => totp_qr_png_bytes(settings@, secret@, account_name@) is None,
        },
{
    match totp_rs::TOTP::new(
        totp_rs::Algorithm::SHA1,
        settings.digits,
        settings.skew,
        settings.step,
        secret.to_vec(),
        Some(settings.issuer.clone()),
        account_name.to_string(),
    ) {
        Ok(t) => Some(t.get_qr_png().ok()),
        Err(_) => None,
    }
}

/// The seconds since the Unix epoch by the system clock, as `totp_rs` reads it; `None` where
/// the clock is before the epoch. It depends on the clock, so nothing is stated of it.
#[verifier::external_body]
fn unix_time() -> (res: Option<u64>) {
    match std::time::SystemTime::now().duration_since(std::time::UNIX_EPOCH) {
        Ok(d) => Some(d.as_secs()),
        Err(_) => None,
    }
}

/// Why a TOTP code or secret was not accepted.
#[derive(Debug, Clone, Copy, PartialEq, Eq, Structural)]
pub enum TotpError {
    /// The secret or the account name is not accepted.
    InvalidSecret,
    /// The system clock is before the Unix epoch.
    SystemTime,
    /// The code is wrong.
    InvalidToken,
    /// No random secret could be drawn.
    GenerateSecret,
    /// The QR code could not be drawn.
    QrCode,
}

/// With this service's settings, `TOTP::new` accepts a secret and an account name exactly
/// where the secret has at least 128 bits and the account name holds no `:`.
pub proof fn lemma_scuffle_totp_accepts(secret: Seq<u8>, account_name: Seq<char>)
    ensures
        totp_accepts(scuffle_totp(), secret, account_name) <==> (secret.len() >= 16
            && !account_name.contains(':')),
{
    reveal_strlit("scuffle.cloud");
    assert(!"scuffle.cloud"@.contains(':'));
}

/// The times at which this service checks codes: from the first thirty seconds of the epoch
/// to a minute before the end of `u64` seconds.
pub open spec fn time_in_totp_range(time: u64) -> bool {
    30 <= time <= u64::MAX - 60
}

/// What checking `token` against the secret `secret` at `time` answers.
pub open spec fn token_outcome(secret: Seq<u8>, token: Seq<char>, time: u64) -> Result<(), TotpError> {
    if !totp_accepts(scuffle_totp(), secret, Seq::empty()) {
        Err(TotpError::InvalidSecret)
    } else if totp_code_matches(scuffle_totp(), secret, token, time) {
        Ok(())
    } else {
        Err(TotpError::InvalidToken)
    }
}

/// Checks the code `token` against the secret `secret` at `time`, in seconds since the Unix
/// epoch.
pub fn verify_token_at(secret: &[u8], token: &str, time: u64) -> (res: Result<(), TotpError>)
    requires
        time_in_totp_range(time),
    ensures
        res == token_outcome(secret@, token@, time),
{
    let settings = totp_settings();
    assert(check_time_fits(settings@, time)) by {
        assert((time / 30) * 30 <= time);
    }
    match totp_check(&settings, secret, token, time) {
        None => Err(TotpError::InvalidSecret),
        Some(true) => Ok(()),
        Some(false) => Err(TotpError::InvalidToken),
    }
}

/// Checks the code `token` against the secret `secret` now. A secret that is not accepted is
/// refused before the clock is read; a clock before the first thirty seconds of the epoch, or
/// within a minute of the end of `u64` seconds, counts as a clock error. Otherwise the answer
/// is the one that the check at the time read from the clock gives.
pub fn verify_token(secret: &[u8], token: &str) -> (res: Result<(), TotpError>)
    ensures
        res == Err::<(), TotpError>(TotpError::InvalidSecret) <==> secret@.len() < 16,
        secret@.len() >= 16 ==> (res == Err::<(), TotpError>(TotpError::SystemTime) || exists|t: u64|
            time_in_totp_range(t) && res == #[trigger] token_outcome(secret@, token@, t)),
        res is Ok ==> exists|t: u64| time_in_totp_range(t) && #[trigger] totp_code_matches(scuffle_totp(), secret@, token@, t),
{
    proof {
        lemma_scuffle_totp_accepts(secret@, Seq::empty());
    }
    if secret.len() < 16 {
        return Err(TotpError::InvalidSecret);
    }
    match unix_time() {
        Some(t) => if 30 <= t && t <= u64::MAX - 60 {
            verify_token_at(secret, token, t)
        } else {
            Err(TotpError::SystemTime)
        },
        None => Err(TotpError::SystemTime),
    }
}

/// What checking `token` against the TOTP credentials `credentials`, in order, at `time`
/// answers: the first credential whose secret accepts the code; a code that none accepts is
/// refused. A credential whose secret is not accepted stops the search with that error.
pub open spec fn credentials_outcome(credentials: Seq<MfaTotpCredential>, token: Seq<char>, time: u64) -> Result<
    MfaTotpCredentialId,
    TotpError,
>
    decreases credentials.len(),
{
    if credentials.len() == 0 {
        Err(TotpError::InvalidToken)
    } else {
        match token_outcome(credentials[0].secret@, token, time) {
            Ok(()) => Ok(credentials[0].id),
            Err(TotpError::InvalidToken) => credentials_outcome(credentials.drop_first(), token, time),
            Err(e) => Err(e),
        }
    }
}

/// The credential that accepts a code is one of the user's credentials whose secret takes
/// the code at that time.
pub proof fn lemma_credentials_outcome_sound(credentials: Seq<MfaTotpCredential>, token: Seq<char>, time: u64)
    ensures
        credentials_outcome(credentials, token, time) matches Ok(id) ==> exists|k: int|
            0 <= k < credentials.len() && (#[trigger] credentials[k]).id == id && token_outcome(
                credentials[k].secret@,
                token,
                time,
            ) == Ok::<(), TotpError>(()),
    decreases credentials.len(),
{
    if credentials.len() > 0 && token_outcome(credentials[0].secret@, token, time) == Err::<(), TotpError>(
        TotpError::InvalidToken,
    ) {
        let rest = credentials.drop_first();
        lemma_credentials_outcome_sound(rest, token, time);
        if let Ok(id) = credentials_outcome(credentials, token, time) {
            let k = choose|k: int|
                0 <= k < rest.len() && (#[trigger] rest[k]).id == id && token_outcome(
                    rest[k].secret@,
                    token,
                    time,
                ) == Ok::<(), TotpError>(());
            assert(credentials[k + 1] == rest[k]);
        }
    }
}

/// Checks a second-factor code against a user's TOTP credentials at `time` and names the
/// credential that accepted it, whose time of use is then updated.
pub fn process_token_at(credentials: &Vec<MfaTotpCredential>, token: &str, time: u64) -> (res: Result<
    MfaTotpCredentialId,
    TotpError,
>)
    requires
        time_in_totp_range(time),
    ensures
        res == credentials_outcome(credentials@, token@, time),
{
    let mut k: usize = 0;
    assert(credentials@.skip(0) =~= credentials@);
    while k < credentials.len()
        invariant
            k <= credentials@.len(),
            time_in_totp_range(time),
            credentials_outcome(credentials@, token@, time) == credentials_outcome(
                credentials@.skip(k as int),
                token@,
                time,
            ),
        decreases credentials@.len() - k,
    {
        let ghost rest = credentials@.skip(k as int);
        assert(rest[0] == credentials@[k as int]);
        assert(rest.drop_first() =~= credentials@.skip(k + 1));
        match verify_token_at(credentials[k].secret.as_slice(), token, time) {
            Ok(()) => {
                return Ok(credentials[k].id);
            },
            Err(TotpError::InvalidToken) => {},
            Err(e) => {
                return Err(e);
            },
        }
        k = k + 1;
    }
    Err(TotpError::InvalidToken)
}

/// Checks a second-factor code against a user's TOTP credentials by the current time, read
/// once for all of them.
pub fn process_token(credentials: &Vec<MfaTotpCredential>, token: &str) -> (res: Result<
    MfaTotpCredentialId,
    TotpError,
>)
    ensures
        res != Err::<MfaTotpCredentialId, TotpError>(TotpError::SystemTime) ==> exists|t: u64|
            time_in_totp_range(t) && res == #[trigger] credentials_outcome(credentials@, token@, t),
{
    match unix_time() {
        Some(t) => if 30 <= t && t <= u64::MAX - 60 {
            process_token_at(credentials, token, t)
        } else {
            Err(TotpError::SystemTime)
        },
        None => Err(TotpError::SystemTime),
    }
}

/// A new TOTP credential on its way to the user: the secret, the URL that authenticator apps
/// read, and its QR code.
#[derive(Debug, Clone)]
pub struct TotpRegistration {
    pub secret: Vec<u8>,
    pub secret_url: String,
    pub secret_qrcode_png: Vec<u8>,
}

/// The registration of the TOTP secret `secret` for the account `account_name`: the secret,
/// its URL and its QR code under this service's settings.
pub fn totp_registration(secret: Vec<u8>, account_name: &str) -> (res: Result<TotpRegistration, TotpError>)
    ensures
        res == Err::<TotpRegistration, TotpError>(TotpError::InvalidSecret) <==> (secret@.len() < 16
            || account_name@.contains(':')),
        res == Err::<TotpRegistration, TotpError>(TotpError::QrCode) <==> (secret@.len() >= 16
            && !account_name@.contains(':') && totp_qr_png_bytes(scuffle_totp(), secret@, account_name@) is None),
        res matches Ok(r) ==> {
            &&& r.secret@ == secret@
            &&& r.secret_url@ == totp_url_text(scuffle_totp(), secret@, account_name@)
            &&& totp_qr_png_bytes(scuffle_totp(), secret@, account_name@) == Some(r.secret_qrcode_png@)
        },
        res is Ok || res == Err::<TotpRegistration, TotpError>(TotpError::InvalidSecret) || res == Err::<
            TotpRegistration,
            TotpError,
        >(TotpError::QrCode),
{
    proof {
        lemma_scuffle_totp_accepts(secret@, account_name@);
    }
    let settings = totp_settings();
    let secret_url = match totp_url(&settings, secret.as_slice(), account_name) {
        Some(u) => u,
        None => {
            return Err(TotpError::InvalidSecret);
        },
    };
    let png = match totp_qr_png(&settings, secret.as_slice(), account_name) {
        Some(Some(p)) => p,
        Some(None) => {
            return Err(TotpError::QrCode);
        },
        None => {
            return Err(TotpError::InvalidSecret);
        },
    };
    Ok(TotpRegistration { secret, secret_url, secret_qrcode_png: png })
}

/// A new TOTP secret of 32 random bytes for the account `account_name`, with its URL and QR
/// code.
pub fn new_token(account_name: &str) -> (res: Result<TotpRegistration, TotpError>)
    ensures
        account_name@.contains(':') ==> res is Err,
        res == Err::<TotpRegistration, TotpError>(TotpError::InvalidSecret) ==> account_name@.contains(':'),
        res matches Ok(r) ==> {
            &&& r.secret@.len() == 32
            &&& r.secret_url@ == totp_url_text(scuffle_totp(), r.secret@, account_name@)
            &&& totp_qr_png_bytes(scuffle_totp(), r.secret@, account_name@) == Some(r.secret_qrcode_png@)
        },
        res matches Err(e) ==> e == TotpError::GenerateSecret || e == TotpError::InvalidSecret || e
            == TotpError::QrCode,
{
    let secret = match generate_random_bytes() {
        Ok(s) => s,
        Err(_) => {
            return Err(TotpError::GenerateSecret);
        },
    };
    totp_registration(secret, account_name)
}

} // verus!
