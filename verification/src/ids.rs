//! Record identifiers: a ULID behind a short prefix that names the kind of record,
//! such as `u_01H9ZQ...` for a user.
use vstd::prelude::*;

verus! {

/// The Crockford base-32 digit of the five-bit value `d`, as `ulid`'s alphabet
/// `0123456789ABCDEFGHJKMNPQRSTVWXYZ` spells it.
pub open spec fn crockford_digit(d: u128) -> char {
    seq![
        '0', '1', '2', '3', '4', '5', '6', '7', '8', '9', 'A', 'B', 'C', 'D', 'E', 'F', 'G', 'H',
        'J', 'K', 'M', 'N', 'P', 'Q', 'R', 'S', 'T', 'V', 'W', 'X', 'Y', 'Z',
    ][d as int]
}

/// The text that `ulid`'s `Ulid::to_string` gives for a 128-bit value: 26 Crockford base-32
/// digits, most significant first, the first holding the top three bits.
pub open spec fn ulid_text(value: u128) -> Seq<char> {
    Seq::new(26, |i: int| crockford_digit((value >> ((125 - 5 * i) as u128)) & 31u128))
}

/// The value that `ulid`'s `Ulid::from_string` reads from a text, if it reads one.
pub uninterp spec fn ulid_decoded(text: Seq<char>) -> Option<u128>;

/// Why a ULID text cannot be read.
#[derive(Debug, Clone, Copy, PartialEq, Eq, Structural)]
pub enum UlidDecodeError {
    /// The text is not 26 bytes long.
    InvalidLength,
    /// The text holds a byte that is no Crockford base-32 digit.
    InvalidChar,
}

/// `ulid`'s `Ulid::to_string`: the 26 Crockford base-32 digits of the value, which
/// `Ulid::from_string` reads back as the same value.
#[verifier::external_body]
fn encode_ulid(value: u128) -> (res: String)
    ensures
        res@ == ulid_text(value),
        res@.len() == 26,
        ulid_decoded(res@) == Some(value),
{
    ulid::Ulid(value).to_string()
}

/// `ulid`'s `Ulid::from_string`: the value the text spells, or which of the two faults it has;
/// the length fault is the one of a text that is not 26 bytes long.
#[verifier::external_body]
fn decode_ulid(text: &str) -> (res: Result<u128, UlidDecodeError>)
    ensures
        match res {
            Ok(v) => ulid_decoded(text@) == Some(v),
            Err(e) => ulid_decoded(text@) is None && (e == UlidDecodeError::InvalidLength
                <==> vstd::utf8::encode_utf8(text@).len() != 26),
        },
{
    match ulid::Ulid::from_string(text) {
        Ok(u) => Ok(u.0),
        Err(ulid::DecodeError::InvalidLength) => Err(UlidDecodeError::InvalidLength),
        Err(ulid::DecodeError::InvalidChar) => Err(UlidDecodeError::InvalidChar),
    }
}

/// The kinds of records that carry an identifier.
#[derive(Debug, Clone, Copy, PartialEq, Eq, Structural)]
pub enum IdKind {
    User,
    NewUserEmailRequest,
    Organization,
    Project,
    Policy,
    Role,
    ServiceAccount,
    ServiceAccountToken,
    OrganizationInvitation,
    MfaTotpCredential,
    MfaWebauthnCredential,
    MfaRecoveryCode,
    UserSessionRequest,
    MagicLinkRequest,
    UserSessionToken,
}

impl IdKind {
    /// The prefix of the identifiers of this kind.
    pub open spec fn prefix_text(self) -> Seq<char> {
        match self {
            IdKind::User => "u_"@,
            IdKind::NewUserEmailRequest => "er_"@,
            IdKind::Organization => "o_"@,
            IdKind::Project => "p_"@,
            IdKind::Policy => "po_"@,
            IdKind::Role => "r_"@,
            IdKind::ServiceAccount => "sa_"@,
            IdKind::ServiceAccountToken => "sat_"@,
            IdKind::OrganizationInvitation => "oi_"@,
            IdKind::MfaTotpCredential => "mft_"@,
            IdKind::MfaWebauthnCredential => "mfw_"@,
            IdKind::MfaRecoveryCode => "mrc_"@,
            IdKind::UserSessionRequest => "sr_"@,
            IdKind::MagicLinkRequest => "ml_"@,
            IdKind::UserSessionToken => "st_"@,
        }
    }

    /// The prefix of the identifiers of this kind.
    pub fn prefix(&self) -> (res: &'static str)
        ensures
            res@ == self.prefix_text(),
    {
        match self {
            IdKind::User => "u_",
            IdKind::NewUserEmailRequest => "er_",
            IdKind::Organization => "o_",
            IdKind::Project => "p_",
            IdKind::Policy => "po_",
            IdKind::Role => "r_",
            IdKind::ServiceAccount => "sa_",
            IdKind::ServiceAccountToken => "sat_",
            IdKind::OrganizationInvitation => "oi_",
            IdKind::MfaTotpCredential => "mft_",
            IdKind::MfaWebauthnCredential => "mfw_",
            IdKind::MfaRecoveryCode => "mrc_",
            IdKind::UserSessionRequest => "sr_",
            IdKind::MagicLinkRequest => "ml_",
            IdKind::UserSessionToken => "st_",
        }
    }
}

/// Each prefix is at least two characters long, ends in `_` and holds no other `_`; and the
/// prefixes of two different kinds differ.
proof fn lemma_prefix_shape(k1: IdKind, k2: IdKind)
    ensures
        k1.prefix_text().len() >= 2,
        k1.prefix_text().last() == '_',
        forall|i: int| 0 <= i < k1.prefix_text().len() - 1 ==> k1.prefix_text()[i] != '_',
        k1 != k2 ==> k1.prefix_text() != k2.prefix_text(),
{
    reveal_strlit("u_");
    reveal_strlit("er_");
    reveal_strlit("o_");
    reveal_strlit("p_");
    reveal_strlit("po_");
    reveal_strlit("r_");
    reveal_strlit("sa_");
    reveal_strlit("sat_");
    reveal_strlit("oi_");
    reveal_strlit("mft_");
    reveal_strlit("mfw_");
    reveal_strlit("mrc_");
    reveal_strlit("sr_");
    reveal_strlit("ml_");
    reveal_strlit("st_");
    if k1 != k2 {
        let p1 = k1.prefix_text();
        let p2 = k2.prefix_text();
        if p1 == p2 {
            assert(p1[0] == p2[0]);
            assert(p1.len() > 2 ==> p1[1] == p2[1]);
            assert(p1.len() > 3 ==> p1[2] == p2[2]);
        }
    }
}

/// No identifier prefix is the start of another kind's prefix: the kinds' prefixes are
/// distinct, so `ServiceAccount`'s `sa_` and `ServiceAccountToken`'s `sat_` cannot be confused.
pub proof fn lemma_prefixes_prefix_free(k1: IdKind, k2: IdKind)
    requires
        k1 != k2,
    ensures
        !k1.prefix_text().is_prefix_of(k2.prefix_text()),
        k1.prefix_text() != k2.prefix_text(),
{
    lemma_prefix_shape(k1, k2);
    lemma_prefix_shape(k2, k1);
    let p1 = k1.prefix_text();
    let p2 = k2.prefix_text();
    if p1.is_prefix_of(p2) {
        let i = p1.len() - 1;
        assert(p2[i] == p1[i]);
        if i < p2.len() - 1 {
            assert(p2[i] != '_');
        }
        assert(p1 =~= p2);
    }
}

/// No identifier text reads as identifiers of two different kinds, and an identifier written
/// for one kind is not read as one of another kind.
pub proof fn lemma_id_kinds_disjoint(k1: IdKind, k2: IdKind, s: Seq<char>, value: u128)
    requires
        k1 != k2,
    ensures
        !(parsed_id(k1, s) is Some && parsed_id(k2, s) is Some),
        parsed_id(k2, id_text(k1, value)) is None,
{
    let p1 = k1.prefix_text();
    let p2 = k2.prefix_text();
    lemma_prefixes_prefix_free(k1, k2);
    lemma_prefixes_prefix_free(k2, k1);
    if p1.is_prefix_of(s) && p2.is_prefix_of(s) {
        if p1.len() <= p2.len() {
            assert(p1 =~= p2.subrange(0, p1.len() as int));
        } else {
            assert(p2 =~= p1.subrange(0, p2.len() as int));
        }
    }
    let t = id_text(k1, value);
    assert(t.subrange(0, p1.len() as int) =~= p1);
    if p2.is_prefix_of(t) {
        if p1.len() <= p2.len() {
            assert(p1 =~= p2.subrange(0, p1.len() as int));
        } else {
            assert(p2 =~= p1.subrange(0, p2.len() as int));
        }
    }
}

/// Why a text is not an identifier of the expected kind.
#[derive(Debug, Clone, Copy, PartialEq, Eq, Structural)]
pub enum IdParseError {
    /// The text does not start with the prefix of this kind.
    PrefixMismatch(IdKind),
    /// The text after the prefix is no ULID.
    Ulid(UlidDecodeError),
}

/// The text of the identifier of kind `kind` with ULID `value`.
pub open spec fn id_text(kind: IdKind, value: u128) -> Seq<char> {
    kind.prefix_text() + ulid_text(value)
}

/// The ULID that `s` names as an identifier of kind `kind`, if it names one.
pub open spec fn parsed_id(kind: IdKind, s: Seq<char>) -> Option<u128> {
    if kind.prefix_text().is_prefix_of(s) {
        ulid_decoded(s.skip(kind.prefix_text().len() as int))
    } else {
        None
    }
}

/// The text of an identifier: its prefix, then its ULID. The text reads back as the same identifier.
pub fn format_id(kind: IdKind, value: u128) -> (res: String)
    ensures
        res@ == id_text(kind, value),
        parsed_id(kind, res@) == Some(value),
{
    let mut res = String::from_str(kind.prefix());
    let u = encode_ulid(value);
    res.append(u.as_str());
    proof {
        let p = kind.prefix_text();
        assert(res@.subrange(0, p.len() as int) =~= p);
        assert(res@.skip(p.len() as int) =~= ulid_text(value));
    }
    res
}

/// Reads an identifier of kind `kind`: the prefix of the kind, then a ULID.
pub fn parse_id(kind: IdKind, s: &str) -> (res: Result<u128, IdParseError>)
    ensures
        res matches Ok(v) ==> parsed_id(kind, s@) == Some(v),
        res is Ok <==> parsed_id(kind, s@) is Some,
        res == Err::<u128, IdParseError>(IdParseError::PrefixMismatch(kind)) <==> !kind.prefix_text().is_prefix_of(s@),
        res matches Err(IdParseError::PrefixMismatch(k)) ==> k == kind,
        res matches Err(IdParseError::Ulid(e)) ==> (e == UlidDecodeError::InvalidLength
            <==> vstd::utf8::encode_utf8(s@.skip(kind.prefix_text().len() as int)).len() != 26),
{
    let p = kind.prefix();
    let plen = p.unicode_len();
    let n = s.unicode_len();
    if n < plen {
        assert(!kind.prefix_text().is_prefix_of(s@));
        return Err(IdParseError::PrefixMismatch(kind));
    }
    let mut k: usize = 0;
    while k < plen
        invariant
            plen == p@.len(),
            p@ == kind.prefix_text(),
            n == s@.len(),
            plen <= n,
            k <= plen,
            forall|m: int| 0 <= m < k ==> p@[m] == s@[m],
        decreases plen - k,
    {
        if p.get_char(k) != s.get_char(k) {
            assert(p@ != s@.subrange(0, plen as int));
            return Err(IdParseError::PrefixMismatch(kind));
        }
        k = k + 1;
    }
    assert(p@ =~= s@.subrange(0, plen as int));
    let rest = s.substring_char(plen, n);
    assert(rest@ =~= s@.skip(plen as int));
    match decode_ulid(rest) {
        Ok(v) => Ok(v),
        Err(e) => Err(IdParseError::Ulid(e)),
    }
}

/// A user's identifier.
#[derive(Debug, Clone, Copy, PartialEq, Eq, Structural, Hash)]
pub struct UserId(pub u128);

/// An organization's identifier.
#[derive(Debug, Clone, Copy, PartialEq, Eq, Structural, Hash)]
pub struct OrganizationId(pub u128);

/// A project's identifier.
#[derive(Debug, Clone, Copy, PartialEq, Eq, Structural, Hash)]
pub struct ProjectId(pub u128);

/// A policy's identifier.
#[derive(Debug, Clone, Copy, PartialEq, Eq, Structural, Hash)]
pub struct PolicyId(pub u128);

/// A role's identifier.
#[derive(Debug, Clone, Copy, PartialEq, Eq, Structural, Hash)]
pub struct RoleId(pub u128);

/// A service account's identifier.
#[derive(Debug, Clone, Copy, PartialEq, Eq, Structural, Hash)]
pub struct ServiceAccountId(pub u128);

/// A recovery code's identifier.
#[derive(Debug, Clone, Copy, PartialEq, Eq, Structural, Hash)]
pub struct MfaRecoveryCodeId(pub u128);

/// A session token's identifier.
#[derive(Debug, Clone, Copy, PartialEq, Eq, Structural, Hash)]
pub struct UserSessionTokenId(pub u128);

/// A request to add an e-mail address's identifier.
#[derive(Debug, Clone, Copy, PartialEq, Eq, Structural, Hash)]
pub struct NewUserEmailRequestId(pub u128);

/// A service account token's identifier.
#[derive(Debug, Clone, Copy, PartialEq, Eq, Structural, Hash)]
pub struct ServiceAccountTokenId(pub u128);

/// An organization invitation's identifier.
#[derive(Debug, Clone, Copy, PartialEq, Eq, Structural, Hash)]
pub struct OrganizationInvitationId(pub u128);

/// A TOTP credential's identifier.
#[derive(Debug, Clone, Copy, PartialEq, Eq, Structural, Hash)]
pub struct MfaTotpCredentialId(pub u128);

/// A WebAuthn credential's identifier.
#[derive(Debug, Clone, Copy, PartialEq, Eq, Structural, Hash)]
pub struct MfaWebauthnCredentialId(pub u128);

/// A request for a session from another device's identifier.
#[derive(Debug, Clone, Copy, PartialEq, Eq, Structural, Hash)]
pub struct UserSessionRequestId(pub u128);

/// A magic link request's identifier.
#[derive(Debug, Clone, Copy, PartialEq, Eq, Structural, Hash)]
pub struct MagicLinkRequestId(pub u128);

/// A fresh ULID from `ulid::Ulid::new`: the current time and random bits. It depends on the
/// clock and on chance, so nothing is stated of it.
#[verifier::external_body]
pub(crate) fn new_ulid() -> (res: u128) {
    ulid::Ulid::new().0
}

/// The ULID text of a record, without any prefix, which the authorization engine uses as
/// the record's entity id.
pub fn ulid_string(value: u128) -> (res: String)
    ensures
        res@ == ulid_text(value),
        ulid_decoded(res@) == Some(value),
{
    encode_ulid(value)
}

} // verus!
