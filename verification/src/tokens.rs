//! Random secrets and the encryption of session tokens for the device that holds them.
use vstd::prelude::*;

use pkcs8::DecodePublicKey;
use rand::RngCore;

use crate::models::DeviceAlgorithm;

verus! {

/// The operating system's generator could not deliver random bytes.
#[derive(Debug, Clone, Copy, PartialEq, Eq, Structural)]
pub struct RandomError;

/// `rand`'s `OsRng::try_fill_bytes` on a buffer of 32 bytes: the buffer, or `None` where the
/// generator fails. The bytes are random, so only their number is stated.
#[verifier::external_body]
fn os_random_32() -> (res: Option<Vec<u8>>)
    ensures
        res matches Some(v) ==> v@.len() == 32,
{
    let mut buf = [0u8; 32];
    match rand::rngs::OsRng.try_fill_bytes(&mut buf) {
        Ok(()) => Some(buf.to_vec()),
        Err(_) => None,
    }
}

/// 32 random bytes from the operating system, for codes, tokens and secrets.
pub fn generate_random_bytes() -> (res: Result<Vec<u8>, RandomError>)
    ensures
        res matches Ok(v) ==> v@.len() == 32,
{
    match os_random_32() {
        Some(v) => Ok(v),
        None => Err(RandomError),
    }
}

/// `rsa`'s `RsaPublicKey::from_public_key_der` accepts `der` as a DER-encoded
/// SubjectPublicKeyInfo of an RSA key.
pub uninterp spec fn rsa_public_key_parses(der: Seq<u8>) -> bool;

/// Every ciphertext that RSA-OAEP with SHA-256 (for both the hash and the mask generation, and
/// no label) can give for `data` under the RSA public key whose DER SubjectPublicKeyInfo is
/// `public_key_der`, one for each random seed: each is a message that OAEP-SHA-256 decryption
/// with the matching private key turns back into `data`. The set is determined by the key and
/// the data; which member an encryption gives depends on the seed.
pub uninterp spec fn rsa_oaep_sha256_ciphertexts(public_key_der: Seq<u8>, data: Seq<u8>) -> Set<Seq<u8>>;

/// The size in bytes of the modulus of the RSA public key whose DER SubjectPublicKeyInfo is
/// `public_key_der`, as `rsa`'s `PublicKeyParts::size` gives it: its bits, rounded up to
/// whole bytes.
pub uninterp spec fn rsa_modulus_len(public_key_der: Seq<u8>) -> nat;

/// An RSA public key.
#[verifier::external_type_specification]
#[verifier::external_body]
pub struct ExRsaPublicKey(rsa::RsaPublicKey);

/// An RSA public key, with the DER text it was read from.
pub struct RsaKey {
    key: rsa::RsaPublicKey,
    der: Ghost<Seq<u8>>,
}

impl View for RsaKey {
    type V = Seq<u8>;

    closed spec fn view(&self) -> Seq<u8> {
        self.der@
    }
}

/// `RsaPublicKey::from_public_key_der` (from `pkcs8`'s `DecodePublicKey`): the key, or `None`
/// where `der` is no public key it reads. Which texts it reads is named, not stated.
#[verifier::external_body]
fn parse_rsa_public_key(der: &[u8]) -> (res: Option<RsaKey>)
    ensures
        res is Some <==> rsa_public_key_parses(der@),
        res matches Some(k) ==> k@ == der@,
{
    match rsa::RsaPublicKey::from_public_key_der(der) {
        Ok(key) => Some(RsaKey { key, der: Ghost(der@) }),
        Err(_) => None,
    }
}

/// `RsaPublicKey::encrypt` with OAEP padding over SHA-256 and the operating system's
/// generator: the ciphertext, or `None` where encryption fails. A key that `from_public_key_der`
/// read has passed `check_public`, so the one error left is `MessageTooLong`: the message with
/// two hashes and two bytes of padding (66 bytes) does not fit the modulus. The ciphertext is
/// padded to the modulus's size. The padding's seed is random (a generator that fails panics
/// rather than returning an error), so the ciphertext is stated to be one of the encryptions of
/// `data` under the key, not which one.
#[verifier::external_body]
fn rsa_oaep_sha256_encrypt(key: &RsaKey, data: &[u8]) -> (res: Option<Vec<u8>>)
    ensures
        res is Some <==> data@.len() + 66 <= rsa_modulus_len(key@),
        res matches Some(c) ==> rsa_oaep_sha256_ciphertexts(key@, data@).contains(c@) && c@.len()
            == rsa_modulus_len(key@),
{
    key.key.encrypt(&mut rsa::rand_core::OsRng, rsa::Oaep::new::<sha2::Sha256>(), data).ok()
}

/// Why a token could not be encrypted for a device.
#[derive(Debug, Clone, Copy, PartialEq, Eq, Structural)]
pub enum EncryptTokenError {
    /// The device's public key does not parse.
    InvalidPublicKey,
    /// The encryption failed.
    EncryptionFailed,
}

/// Encrypts `token` for the device whose public key, in DER, is `pk_der_data`, with the
/// device's algorithm. It succeeds exactly where the key parses and the token, with the 66 bytes
/// of OAEP padding, fits its modulus.
pub fn encrypt_token(algorithm: DeviceAlgorithm, token: &[u8], pk_der_data: &[u8]) -> (res: Result<
    Vec<u8>,
    EncryptTokenError,
>)
    ensures
        res == Err::<Vec<u8>, EncryptTokenError>(EncryptTokenError::InvalidPublicKey) <==> !rsa_public_key_parses(
            pk_der_data@,
        ),
        res == Err::<Vec<u8>, EncryptTokenError>(EncryptTokenError::EncryptionFailed) <==> (rsa_public_key_parses(
            pk_der_data@,
        ) && token@.len() + 66 > rsa_modulus_len(pk_der_data@)),
        res is Ok <==> (rsa_public_key_parses(pk_der_data@) && token@.len() + 66 <= rsa_modulus_len(
            pk_der_data@,
        )),
        res matches Ok(c) ==> algorithm == DeviceAlgorithm::RsaOaepSha256
            && rsa_oaep_sha256_ciphertexts(pk_der_data@, token@).contains(c@) && c@.len()
            == rsa_modulus_len(pk_der_data@),
{
    match algorithm {
        DeviceAlgorithm::RsaOaepSha256 => {
            let key = match parse_rsa_public_key(pk_der_data) {
                Some(k) => k,
                None => {
                    return Err(EncryptTokenError::InvalidPublicKey);
                },
            };
            match rsa_oaep_sha256_encrypt(&key, token) {
                Some(c) => Ok(c),
                None => Err(EncryptTokenError::EncryptionFailed),
            }
        },
    }
}

} // verus!
