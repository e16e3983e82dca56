//! Passwords, recovery codes and the second factors of a sign-in: which factors a user has,
//! how a password or recovery code is checked, and how WebAuthn counters are judged.
use vstd::prelude::*;

use argon2::{Argon2, PasswordHasher, PasswordVerifier};
use rand::distributions::DistString;
use vstd::string::StringSliceAdditionalSpecFns;

use crate::chars::is_ascii_alnum;
use crate::ids::{IdKind, MfaRecoveryCodeId, UserId, format_id, id_text, new_ulid};
use crate::models::{MfaRecoveryCode, User};

verus! {

/// A second factor that a user can complete a sign-in with.
#[derive(Debug, Clone, Copy, PartialEq, Eq, Structural)]
pub enum MfaOption {
    Totp,
    WebAuthn,
    RecoveryCodes,
}

/// The second factors of a user who holds `totp`, `webauthn` and `recovery` credentials of
/// each kind: each kind the user holds at least one of, in this order.
pub open spec fn mfa_options_spec(totp: int, webauthn: int, recovery: int) -> Seq<MfaOption> {
    (if totp > 0 { seq![MfaOption::Totp] } else { Seq::empty() }) + (if webauthn > 0 {
        seq![MfaOption::WebAuthn]
    } else {
        Seq::empty()
    }) + (if recovery > 0 { seq![MfaOption::RecoveryCodes] } else { Seq::empty() })
}

/// The second factors of a user, from the number of credentials of each kind that the user
/// holds.
pub fn mfa_options(totp_count: i64, webauthn_count: i64, recovery_count: i64) -> (res: Vec<
    MfaOption,
>)
    ensures
        res@ == mfa_options_spec(totp_count as int, webauthn_count as int, recovery_count as int),
{
    let mut options: Vec<MfaOption> = Vec::new();
    if totp_count > 0 {
        options.push(MfaOption::Totp);
    }
    if webauthn_count > 0 {
        options.push(MfaOption::WebAuthn);
    }
    if recovery_count > 0 {
        options.push(MfaOption::RecoveryCodes);
    }
    assert(options@ =~= mfa_options_spec(
        totp_count as int,
        webauthn_count as int,
        recovery_count as int,
    ));
    options
}

/// What a password check found.
#[derive(Debug, Clone, Copy, PartialEq, Eq, Structural)]
pub enum PasswordCheck {
    /// The password matches the hash.
    Match,
    /// The password does not match the hash.
    Mismatch,
    /// The hash could not be checked (its parameters are unusable).
    Failed,
}

/// `password_hash`'s `PasswordHash::new` accepts `hash` as a PHC string.
pub uninterp spec fn password_hash_parses(hash: Seq<char>) -> bool;

/// What `argon2`'s `Argon2::default().verify_password` finds for the UTF-8 bytes of
/// `password` against the PHC string `hash`.
pub uninterp spec fn argon2_verdict(hash: Seq<char>, password: Seq<char>) -> PasswordCheck;

/// `PasswordHash::new(hash)` and, where it parses, `Argon2::default().verify_password` of the
/// UTF-8 bytes of `password` against it: `Ok` is a match, `Error::Password` a mismatch, any
/// other error a failure. Both results are named, not stated.
#[verifier::external_body]
fn argon2_verify(hash: &str, password: &str) -> (res: Option<PasswordCheck>)
    ensures
        res is None <==> !password_hash_parses(hash@),
        res matches Some(c) ==> c == argon2_verdict(hash@, password@),
{
    let parsed = match argon2::PasswordHash::new(hash) {
        Ok(h) => h,
        Err(_) => return None,
    };
    match Argon2::default().verify_password(password.as_bytes(), &parsed) {
        Ok(()) => Some(PasswordCheck::Match),
        Err(argon2::password_hash::Error::Password) => Some(PasswordCheck::Mismatch),
        Err(_) => Some(PasswordCheck::Failed),
    }
}

/// `Argon2::default().hash_password` of the UTF-8 bytes of `password` with a fresh random
/// salt from the operating system, as a PHC string; `None` where hashing fails. With the
/// default parameters and a generated salt of sixteen bytes, the one input that `argon2`
/// refuses is a password of more than `MAX_PWD_LEN` (`0xFFFF_FFFF`) bytes. The salt is
/// random, so the hash is not named; what holds of every outcome is that the hash parses and
/// that `password` verifies against it, since verification recomputes the hash with the
/// stored parameters and salt.
#[verifier::external_body]
fn argon2_hash(password: &str) -> (res: Option<String>)
    ensures
        res is Some <==> password.spec_bytes().len() <= 0xFFFF_FFFF,
        res matches Some(h) ==> password_hash_parses(h@) && argon2_verdict(h@, password@)
            == PasswordCheck::Match,
{
    let salt = argon2::password_hash::SaltString::generate(&mut argon2::password_hash::rand_core::OsRng);
    match Argon2::default().hash_password(password.as_bytes(), &salt) {
        Ok(h) => Some(h.to_string()),
        Err(_) => None,
    }
}

/// Why a password was not accepted.
#[derive(Debug, Clone, Copy, PartialEq, Eq, Structural)]
pub enum PasswordError {
    /// The stored hash does not parse.
    InvalidHash,
    /// The password is wrong.
    InvalidPassword,
    /// The stored hash could not be checked.
    VerificationFailed,
}

/// What checking `password` against the stored `hash` answers.
pub open spec fn password_outcome(hash: Seq<char>, password: Seq<char>) -> Result<(), PasswordError> {
    if !password_hash_parses(hash) {
        Err(PasswordError::InvalidHash)
    } else {
        match argon2_verdict(hash, password) {
            PasswordCheck::Match => Ok(()),
            PasswordCheck::Mismatch => Err(PasswordError::InvalidPassword),
            PasswordCheck::Failed => Err(PasswordError::VerificationFailed),
        }
    }
}

/// Checks `password` against the stored argon2 hash `password_hash`.
pub fn verify_password(password_hash: &str, password: &str) -> (res: Result<(), PasswordError>)
    ensures
        res == password_outcome(password_hash@, password@),
{
    match argon2_verify(password_hash, password) {
        None => Err(PasswordError::InvalidHash),
        Some(PasswordCheck::Match) => Ok(()),
        Some(PasswordCheck::Mismatch) => Err(PasswordError::InvalidPassword),
        Some(PasswordCheck::Failed) => Err(PasswordError::VerificationFailed),
    }
}

/// Hashes a new password with argon2 and a fresh salt; `None` where hashing fails, which is
/// for a password of more than `0xFFFF_FFFF` bytes alone. The password verifies against every
/// hash this returns.
pub fn hash_password(password: &str) -> (res: Option<String>)
    ensures
        res is Some <==> password.spec_bytes().len() <= 0xFFFF_FFFF,
        res matches Some(h) ==> password_outcome(h@, password@) == Ok::<(), PasswordError>(()),
{
    argon2_hash(password)
}

/// Why a password change was refused.
#[derive(Debug, Clone, Copy, PartialEq, Eq, Structural)]
pub enum PasswordChangeError {
    /// The user has a password, and the request does not give the current one.
    MissingCurrentPassword,
    /// The current password was not accepted.
    CurrentPassword(PasswordError),
}

/// Whether a user whose stored hash is `password_hash` may set a new password: a user without
/// a password may; a user with one must give the current password, which must verify.
pub fn check_password_change(password_hash: Option<&str>, current_password: Option<&str>) -> (res:
    Result<(), PasswordChangeError>)
    ensures
        match (password_hash, current_password) {
            (None, _) => res is Ok,
            (Some(_), None) => res == Err::<(), PasswordChangeError>(
                PasswordChangeError::MissingCurrentPassword,
            ),
            (Some(h), Some(p)) => match password_outcome(h@, p@) {
                Ok(()) => res is Ok,
                Err(e) => res == Err::<(), PasswordChangeError>(
                    PasswordChangeError::CurrentPassword(e),
                ),
            },
        },
{
    match password_hash {
        None => Ok(()),
        Some(h) => match current_password {
            None => Err(PasswordChangeError::MissingCurrentPassword),
            Some(p) => match verify_password(h, p) {
                Ok(()) => Ok(()),
                Err(e) => Err(PasswordChangeError::CurrentPassword(e)),
            },
        },
    }
}

/// Why a recovery code could not be checked.
#[derive(Debug, Clone, Copy, PartialEq, Eq, Structural)]
pub enum RecoveryCodeError {
    /// A stored hash does not parse.
    InvalidHash,
    /// A stored hash could not be checked.
    VerificationFailed,
}

/// What checking `code` against the stored recovery codes `codes`, in order, answers: the
/// first code that it matches, which is then used up; `None` where it matches none. A stored
/// hash that does not parse, or cannot be checked, stops the search with an error.
pub open spec fn recovery_outcome(codes: Seq<MfaRecoveryCode>, code: Seq<char>) -> Result<
    Option<MfaRecoveryCodeId>,
    RecoveryCodeError,
>
    decreases codes.len(),
{
    if codes.len() == 0 {
        Ok(None)
    } else if !password_hash_parses(codes[0].code_hash@) {
        Err(RecoveryCodeError::InvalidHash)
    } else {
        match argon2_verdict(codes[0].code_hash@, code) {
            PasswordCheck::Match => Ok(Some(codes[0].id)),
            PasswordCheck::Mismatch => recovery_outcome(codes.drop_first(), code),
            PasswordCheck::Failed => Err(RecoveryCodeError::VerificationFailed),
        }
    }
}

/// The recovery code that a check uses up is one of the stored codes, and the given code
/// matches its hash; a check that uses up none found no stored code that the given code
/// matches (each hash parsed, and none matched).
pub proof fn lemma_recovery_outcome_sound(codes: Seq<MfaRecoveryCode>, code: Seq<char>)
    ensures
        recovery_outcome(codes, code) matches Ok(Some(id)) ==> exists|k: int|
            0 <= k < codes.len() && (#[trigger] codes[k]).id == id && argon2_verdict(
                codes[k].code_hash@,
                code,
            ) == PasswordCheck::Match,
        recovery_outcome(codes, code) == Ok::<Option<MfaRecoveryCodeId>, RecoveryCodeError>(None)
            ==> forall|k: int|
            0 <= k < codes.len() ==> argon2_verdict((#[trigger] codes[k]).code_hash@, code)
                == PasswordCheck::Mismatch,
    decreases codes.len(),
{
    if codes.len() > 0 && password_hash_parses(codes[0].code_hash@) && argon2_verdict(
        codes[0].code_hash@,
        code,
    ) == PasswordCheck::Mismatch {
        let rest = codes.drop_first();
        lemma_recovery_outcome_sound(rest, code);
        if let Ok(Some(id)) = recovery_outcome(codes, code) {
            let k = choose|k: int|
                0 <= k < rest.len() && (#[trigger] rest[k]).id == id && argon2_verdict(
                    rest[k].code_hash@,
                    code,
                ) == PasswordCheck::Match;
            assert(codes[k + 1] == rest[k]);
        }
        if recovery_outcome(codes, code) == Ok::<Option<MfaRecoveryCodeId>, RecoveryCodeError>(None) {
            assert forall|k: int| 0 <= k < codes.len() implies argon2_verdict(
                (#[trigger] codes[k]).code_hash@,
                code,
            ) == PasswordCheck::Mismatch by {
                if k > 0 {
                    assert(codes[k] == rest[k - 1]);
                }
            }
        }
    }
}

/// Checks `code` against a user's stored recovery codes and names the one to delete. A
/// code that matches none of them is answered `Ok(None)`: nothing is used up, and the
/// request is not refused.
pub fn process_recovery_code(codes: &Vec<MfaRecoveryCode>, code: &str) -> (res: Result<
    Option<MfaRecoveryCodeId>,
    RecoveryCodeError,
>)
    ensures
        res == recovery_outcome(codes@, code@),
{
    let mut k: usize = 0;
    assert(codes@.skip(0) =~= codes@);
    while k < codes.len()
        invariant
            k <= codes@.len(),
            recovery_outcome(codes@, code@) == recovery_outcome(codes@.skip(k as int), code@),
        decreases codes@.len() - k,
    {
        let ghost rest = codes@.skip(k as int);
        assert(rest[0] == codes@[k as int]);
        assert(rest.drop_first() =~= codes@.skip(k + 1));
        match argon2_verify(codes[k].code_hash.as_str(), code) {
            None => {
                return Err(RecoveryCodeError::InvalidHash);
            },
            Some(PasswordCheck::Match) => {
                return Ok(Some(codes[k].id));
            },
            Some(PasswordCheck::Mismatch) => {},
            Some(PasswordCheck::Failed) => {
                return Err(RecoveryCodeError::VerificationFailed);
            },
        }
        k = k + 1;
    }
    Ok(None)
}

/// The identifiers of `codes` are pairwise distinct, as the store's primary key keeps them.
pub open spec fn distinct_ids(codes: Seq<MfaRecoveryCode>) -> bool {
    forall|i: int, j: int| 0 <= i < j < codes.len() ==> (#[trigger] codes[i]).id != (#[trigger] codes[j]).id
}

/// Checks `code` against a user's stored recovery codes `codes`, as `process_recovery_code`
/// does, and uses up the code it matches: that one is removed and every other code stays as it
/// was. Where the check matches none, or fails, the codes are left as they were.
pub fn use_recovery_code(codes: &mut Vec<MfaRecoveryCode>, code: &str) -> (res: Result<
    Option<MfaRecoveryCodeId>,
    RecoveryCodeError,
>)
    ensures
        res == recovery_outcome(old(codes)@, code@),
        res matches Ok(Some(id)) ==> exists|k: int|
            0 <= k < old(codes)@.len() && (#[trigger] old(codes)@[k]).id == id && final(codes)@
                == old(codes)@.remove(k),
        !(res matches Ok(Some(_))) ==> final(codes)@ == old(codes)@,
        res matches Ok(Some(id)) ==> (distinct_ids(old(codes)@) ==> forall|j: int|
            0 <= j < final(codes)@.len() ==> (#[trigger] final(codes)@[j]).id != id),
{
    let mut k: usize = 0;
    assert(codes@.skip(0) =~= codes@);
    while k < codes.len()
        invariant
            k <= codes@.len(),
            codes@ == old(codes)@,
            recovery_outcome(codes@, code@) == recovery_outcome(codes@.skip(k as int), code@),
        decreases codes@.len() - k,
    {
        let ghost rest = codes@.skip(k as int);
        assert(rest[0] == codes@[k as int]);
        assert(rest.drop_first() =~= codes@.skip(k + 1));
        match argon2_verify(codes[k].code_hash.as_str(), code) {
            None => {
                return Err(RecoveryCodeError::InvalidHash);
            },
            Some(PasswordCheck::Match) => {
                let id = codes[k].id;
                let ghost before = codes@;
                codes.remove(k);
                proof {
                    if distinct_ids(before) {
                        assert forall|j: int| 0 <= j < codes@.len() implies (#[trigger] codes@[j]).id != id by {
                            if j < k {
                                assert(codes@[j] == before[j]);
                            } else {
                                assert(codes@[j] == before[j + 1]);
                            }
                        }
                    }
                }
                return Ok(Some(id));
            },
            Some(PasswordCheck::Mismatch) => {},
            Some(PasswordCheck::Failed) => {
                return Err(RecoveryCodeError::VerificationFailed);
            },
        }
        k = k + 1;
    }
    Ok(None)
}

/// A recovery code is used up by its use: where the stored codes have distinct identifiers,
/// checking the same code again against what is left never uses up the same stored code.
pub proof fn lemma_recovery_code_single_use(
    codes: Seq<MfaRecoveryCode>,
    remaining: Seq<MfaRecoveryCode>,
    k: int,
    code: Seq<char>,
)
    requires
        distinct_ids(codes),
        0 <= k < codes.len(),
        remaining == codes.remove(k),
    ensures
        !(recovery_outcome(remaining, code) matches Ok(Some(id)) && id == codes[k].id),
{
    lemma_recovery_outcome_sound(remaining, code);
    if let Ok(Some(id)) = recovery_outcome(remaining, code) {
        if id == codes[k].id {
            let j = choose|j: int|
                0 <= j < remaining.len() && (#[trigger] remaining[j]).id == id && argon2_verdict(
                    remaining[j].code_hash@,
                    code,
                ) == PasswordCheck::Match;
            if j < k {
                assert(remaining[j] == codes[j]);
            } else {
                assert(remaining[j] == codes[j + 1]);
            }
        }
    }
}

/// `rand`'s `Alphanumeric.sample_string` with the operating system's generator: `len`
/// characters drawn from the ASCII letters and digits. The characters are random, so only
/// their number and their alphabet are stated.
#[verifier::external_body]
fn random_alphanumeric(len: usize) -> (res: String)
    ensures
        res@.len() == len,
        forall|k: int| 0 <= k < res@.len() ==> is_ascii_alnum(#[trigger] res@[k]),
{
    rand::distributions::Alphanumeric.sample_string(&mut rand::rngs::OsRng, len)
}

/// A fresh set of recovery codes: the codes shown to the user once, and the records that keep
/// their hashes.
#[derive(Debug, Clone)]
pub struct RecoveryCodes {
    pub codes: Vec<String>,
    pub records: Vec<MfaRecoveryCode>,
}

/// Twelve new recovery codes of eight ASCII letters and digits for `user_id`, each stored under
/// a fresh identifier as an argon2 hash against which it verifies. Codes of eight ASCII bytes
/// are well within what argon2 hashes, so the result is always `Some`.
pub fn generate_recovery_codes(user_id: UserId) -> (res: Option<RecoveryCodes>)
    ensures
        res is Some,
        res matches Some(r) ==> {
            &&& r.codes@.len() == 12
            &&& r.records@.len() == 12
            &&& forall|k: int|
                0 <= k < 12 ==> {
                    &&& (#[trigger] r.codes@[k])@.len() == 8
                    &&& forall|j: int| 0 <= j < 8 ==> is_ascii_alnum(r.codes@[k]@[j])
                    &&& r.records@[k].user_id == user_id
                    &&& password_outcome(r.records@[k].code_hash@, r.codes@[k]@) == Ok::<
                        (),
                        PasswordError,
                    >(())
                }
        },
{
    let mut codes: Vec<String> = Vec::new();
    let mut records: Vec<MfaRecoveryCode> = Vec::new();
    let mut k: usize = 0;
    while k < 12
        invariant
            k <= 12,
            codes@.len() == k,
            records@.len() == k,
            forall|m: int|
                0 <= m < k ==> {
                    &&& (#[trigger] codes@[m])@.len() == 8
                    &&& forall|j: int| 0 <= j < 8 ==> is_ascii_alnum(codes@[m]@[j])
                    &&& records@[m].user_id == user_id
                    &&& password_outcome(records@[m].code_hash@, codes@[m]@) == Ok::<
                        (),
                        PasswordError,
                    >(())
                },
        decreases 12 - k,
    {
        let code = random_alphanumeric(8);
        proof {
            assert(vstd::utf8::is_ascii_chars(code@));
            vstd::utf8::is_ascii_chars_encode_utf8(code@);
        }
        let code_hash = match hash_password(code.as_str()) {
            Some(h) => h,
            None => {
                return None;
            },
        };
        records.push(MfaRecoveryCode { id: MfaRecoveryCodeId(new_ulid()), user_id, code_hash });
        codes.push(code);
        k = k + 1;
    }
    Some(RecoveryCodes { codes, records })
}

/// What the WebAuthn signature counter of a sign-in decides.
#[derive(Debug, Clone, Copy, PartialEq, Eq, Structural)]
pub enum CounterCheck {
    /// The credential is fine: store this counter and the time of use.
    Update(i64),
    /// The counter did not grow: the credential may be cloned, so it is deleted and the
    /// sign-in refused.
    Revoke,
}

/// Judges the counter that an authenticator reported for a sign-in against the one stored
/// with the credential: an authenticator without a counter reports zero, and a credential
/// without a stored counter accepts any; otherwise the counter must have grown.
pub fn check_webauthn_counter(reported: u32, stored: Option<i64>) -> (res: CounterCheck)
    ensures
        (reported == 0 || stored is None || stored->0 < reported) ==> res == CounterCheck::Update(
            reported as i64,
        ),
        !(reported == 0 || stored is None || stored->0 < reported) ==> res == CounterCheck::Revoke,
{
    let counter: i64 = reported as i64;
    let fresh = match stored {
        None => true,
        Some(c) => c < counter,
    };
    if counter == 0 || fresh {
        CounterCheck::Update(counter)
    } else {
        CounterCheck::Revoke
    }
}

/// The name a user signs in under: the primary e-mail address, or else the user's identifier.
pub open spec fn login_name(user: User) -> Seq<char> {
    match user.primary_email {
        Some(e) => e@,
        None => id_text(IdKind::User, user.id.0),
    }
}

/// The name under which a user's authenticators and TOTP apps list the account.
pub fn user_login_name(user: &User) -> (res: String)
    ensures
        res@ == login_name(*user),
{
    match &user.primary_email {
        Some(e) => e.clone(),
        None => format_id(IdKind::User, user.id.0),
    }
}

/// The display name of a user for WebAuthn: the preferred name, or else the first and the last
/// name joined by a space where both are known, or else the login name.
pub open spec fn webauthn_display_name_spec(user: User) -> Seq<char> {
    match user.preferred_name {
        Some(p) => p@,
        None => match (user.first_name, user.last_name) {
            (Some(f), Some(l)) => f@ + " "@ + l@,
            _ => login_name(user),
        },
    }
}

/// The display name of a user for WebAuthn.
pub fn webauthn_display_name(user: &User) -> (res: String)
    ensures
        res@ == webauthn_display_name_spec(*user),
{
    proof {
        reveal_strlit(" ");
    }
    match &user.preferred_name {
        Some(p) => p.clone(),
        None => match (&user.first_name, &user.last_name) {
            (Some(f), Some(l)) => f.clone().concat(" ").concat(l.as_str()),
            _ => user_login_name(user),
        },
    }
}

} // verus!
