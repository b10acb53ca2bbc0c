//! The key pair of a server-side backup of room keys.
//!
//! The private half, the recovery key, is 32 bytes.  It is made at random,
//! read from its base64 or base58 form, or derived from a passphrase.  The
//! public half is what room keys are encrypted to before they are uploaded.

use vstd::prelude::*;
use std::collections::HashMap;
use hmac::Hmac;
use matrix_sdk_crypto::backups::DecodeError as InnerDecodeError;
use matrix_sdk_crypto::backups::DecryptionError as InnerPkDecryptionError;
use matrix_sdk_crypto::store::BackupDecryptionKey;
use matrix_sdk_crypto::types::InvalidSignature;
use matrix_sdk_crypto::types::Signature;
use matrix_sdk_crypto::CryptoStoreError as InnerStoreError;
use rand::distributions::Alphanumeric;
use rand::distributions::DistString;
use sha2::Sha512;

verus! {

#[verifier::external_type_specification]
#[verifier::external_body]
pub struct ExInnerDecodeError(InnerDecodeError);

#[verifier::external_type_specification]
#[verifier::external_body]
pub struct ExInnerPkDecryptionError(InnerPkDecryptionError);

/// The number of bytes of a recovery key.
pub const KEY_SIZE: usize = 32;

/// The number of characters of a salt that is made at random.
pub const SALT_SIZE: usize = 32;

/// The number of PBKDF2 rounds used with a salt that is made at random.
pub const PBKDF_ROUNDS: i32 = 500_000;

/// Why a message of the backup could not be decrypted.
#[derive(Debug)]
pub enum PkDecryptionError {
    /// The message cannot be decoded, or was not encrypted to this key.
    Olm(InnerPkDecryptionError),
}

/// Why a backup key could not be read.
#[derive(Debug)]
pub enum DecodeError {
    /// The text is no encoding of a key.
    Decode(InnerDecodeError),
    /// The store failed.
    CryptoStore(InnerStoreError),
}

/// How a recovery key was derived from a passphrase.
#[derive(Debug)]
pub struct PassphraseInfo {
    /// The salt of the derivation.
    pub private_key_salt: String,
    /// The number of PBKDF2 rounds of the derivation.
    pub private_key_iterations: i32,
}

impl Clone for PassphraseInfo {
    fn clone(&self) -> (r: Self)
        ensures
            r == *self,
    {
        PassphraseInfo {
            private_key_salt: self.private_key_salt.clone(),
            private_key_iterations: self.private_key_iterations,
        }
    }
}

/// The public half of a backup key.
pub struct MegolmV1BackupKey {
    /// The public key, in base64.
    pub public_key: String,
    /// The signatures of the key: by user, then by key id.
    pub signatures: HashMap<String, HashMap<String, String>>,
    /// How the private half was derived, where it came from a passphrase.
    pub passphrase_info: Option<PassphraseInfo>,
    /// The name of the backup algorithm that the key is for.
    pub backup_algorithm: String,
}

/// The private half of a backup key: the key that recovers a backup.
pub struct BackupRecoveryKey {
    key: [u8; 32],
    passphrase_info: Option<PassphraseInfo>,
}

/// The first 32 bytes of PBKDF2 with HMAC-SHA-512 over the UTF-8 bytes of a
/// password and a salt: what `pbkdf2::pbkdf2::<Hmac<Sha512>>` writes into a
/// buffer of that size.
pub uninterp spec fn pbkdf2_hmac_sha512(password: Seq<char>, salt: Seq<char>, rounds: u32) -> Seq<
    u8,
>;

/// The key that `BackupDecryptionKey::from_base64` reads from a text, if it
/// reads one.
pub uninterp spec fn key_of_base64(text: Seq<char>) -> Option<Seq<u8>>;

/// The key that `BackupDecryptionKey::from_base58` reads from a text, if it
/// reads one.
pub uninterp spec fn key_of_base58(text: Seq<char>) -> Option<Seq<u8>>;

/// The text that `BackupDecryptionKey::to_base64` writes for a key.
pub uninterp spec fn base64_of_key(key: Seq<u8>) -> Seq<char>;

/// The text that `BackupDecryptionKey::to_base58` writes for a key.
pub uninterp spec fn base58_of_key(key: Seq<u8>) -> Seq<char>;

/// The public key that belongs to a recovery key, in base64: what
/// `BackupDecryptionKey::megolm_v1_public_key` derives, written by
/// `MegolmV1BackupKey::to_base64`.
pub uninterp spec fn public_key_of(key: Seq<u8>) -> Seq<char>;

/// What `BackupDecryptionKey::decrypt_v1` makes of a message under a key, if
/// it decrypts.
pub uninterp spec fn pk_decrypted(
    key: Seq<u8>,
    ephemeral_key: Seq<char>,
    mac: Seq<char>,
    ciphertext: Seq<char>,
) -> Option<Seq<char>>;

/// The name of the one backup algorithm.
pub open spec fn backup_algorithm() -> Seq<char> {
    "m.megolm_backup.v1.curve25519-aes-sha2"@
}

/// The signatures of a key that nobody signed.
pub open spec fn no_signatures() -> Map<String, HashMap<String, String>> {
    Map::empty()
}

/// Whether a character is an ASCII letter or digit.
pub open spec fn is_alphanumeric(c: char) -> bool {
    ('a' <= c && c <= 'z') || ('A' <= c && c <= 'Z') || ('0' <= c && c <= '9')
}

/// Whether a text is a salt as this module makes them: `SALT_SIZE` ASCII
/// letters and digits.
pub open spec fn is_fresh_salt(salt: Seq<char>) -> bool {
    salt.len() == SALT_SIZE && forall|i: int|
        0 <= i < salt.len() ==> is_alphanumeric(#[trigger] salt[i])
}

/// The rounds that a derivation runs with: the count of the caller, read as
/// an unsigned number of 32 bits.
pub open spec fn rounds_of(rounds: i32) -> u32 {
    if rounds >= 0 {
        rounds as u32
    } else {
        (rounds + 0x1_0000_0000) as u32
    }
}

/// Calls `BackupDecryptionKey::new` and copies the bytes out.  The key is
/// random: nothing is claimed of it.
#[verifier::external_body]
fn random_key() -> [u8; 32] {
    *BackupDecryptionKey::new().expect("Can't gather enough randomness").as_bytes()
}

/// Calls `Alphanumeric.sample_string` of `rand` on the thread's generator.
/// Trusted: the string has `len` characters, each an ASCII letter or digit.
#[verifier::external_body]
fn random_alphanumeric(len: usize) -> (r: String)
    ensures
        r@.len() == len,
        forall|i: int| 0 <= i < r@.len() ==> is_alphanumeric(#[trigger] r@[i]),
{
    Alphanumeric.sample_string(&mut rand::thread_rng(), len)
}

/// Calls `pbkdf2::pbkdf2` with HMAC-SHA-512 on a buffer of 32 bytes.
#[verifier::external_body]
fn derive_key(passphrase: &str, salt: &str, rounds: u32) -> (r: [u8; 32])
    ensures
        r@ == pbkdf2_hmac_sha512(passphrase@, salt@, rounds),
{
    let mut key = [0u8; 32];
    pbkdf2::pbkdf2::<Hmac<Sha512>>(passphrase.as_bytes(), salt.as_bytes(), rounds, &mut key);
    key
}

/// Calls `BackupDecryptionKey::from_base64` and copies the bytes out.
#[verifier::external_body]
fn decode_base64(text: &str) -> (r: Result<[u8; 32], InnerDecodeError>)
    ensures
        r is Ok ==> key_of_base64(text@) == Some(r->Ok_0@),
        r is Err ==> key_of_base64(text@) is None,
{
    BackupDecryptionKey::from_base64(text).map(|k| *k.as_bytes())
}

/// Calls `BackupDecryptionKey::from_base58` and copies the bytes out.
#[verifier::external_body]
fn decode_base58(text: &str) -> (r: Result<[u8; 32], InnerDecodeError>)
    ensures
        r is Ok ==> key_of_base58(text@) == Some(r->Ok_0@),
        r is Err ==> key_of_base58(text@) is None,
{
    BackupDecryptionKey::from_base58(text).map(|k| *k.as_bytes())
}

/// Calls `BackupDecryptionKey::to_base64` on the key of these bytes.
#[verifier::external_body]
fn encode_base64(key: &[u8; 32]) -> (r: String)
    ensures
        r@ == base64_of_key(key@),
{
    BackupDecryptionKey::from_bytes(key).to_base64()
}

/// Calls `BackupDecryptionKey::to_base58` on the key of these bytes.
#[verifier::external_body]
fn encode_base58(key: &[u8; 32]) -> (r: String)
    ensures
        r@ == base58_of_key(key@),
{
    BackupDecryptionKey::from_bytes(key).to_base58()
}

/// Calls `BackupDecryptionKey::megolm_v1_public_key` on the key of these
/// bytes and reads the result through `to_base64` and `backup_algorithm`.
/// Trusted: the algorithm is the one that the library names.
#[verifier::external_body]
fn public_parts(key: &[u8; 32]) -> (r: (String, String))
    ensures
        r.0@ == public_key_of(key@),
        r.1@ == backup_algorithm(),
{
    let public_key = BackupDecryptionKey::from_bytes(key).megolm_v1_public_key();
    (public_key.to_base64(), public_key.backup_algorithm().to_owned())
}

/// Calls `MegolmV1BackupKey::signatures` on the public half of the key of
/// these bytes and writes each entry as text.  Trusted: a public key that
/// was just derived carries no signature.
#[verifier::external_body]
fn public_signatures(key: &[u8; 32]) -> (r: HashMap<String, HashMap<String, String>>)
    ensures
        r@ == no_signatures(),
{
    let signatures = BackupDecryptionKey::from_bytes(key).megolm_v1_public_key().signatures();
    let text = |s: Result<Signature, InvalidSignature>| s.map_or_else(|e| e.source, |s| s.to_base64());
    signatures
        .into_iter()
        .map(|(u, m)| (u.to_string(), m.into_iter().map(|(k, s)| (k.to_string(), text(s))).collect()))
        .collect()
}

/// Calls `BackupDecryptionKey::decrypt_v1` on the key of these bytes.
#[verifier::external_body]
fn decrypt_message(key: &[u8; 32], ephemeral_key: &str, mac: &str, ciphertext: &str) -> (r: Result<
    String,
    InnerPkDecryptionError,
>)
    ensures
        r is Ok ==> pk_decrypted(key@, ephemeral_key@, mac@, ciphertext@) == Some(r->Ok_0@),
        r is Err ==> pk_decrypted(key@, ephemeral_key@, mac@, ciphertext@) is None,
{
    BackupDecryptionKey::from_bytes(key).decrypt_v1(ephemeral_key, mac, ciphertext)
}

impl BackupRecoveryKey {
    /// The 32 bytes of the key.
    pub closed spec fn key_bytes(&self) -> Seq<u8> {
        self.key@
    }

    /// How the key was derived, where it came from a passphrase.
    pub closed spec fn derivation(&self) -> Option<PassphraseInfo> {
        self.passphrase_info
    }

    /// The bytes of the key.
    pub(crate) fn bytes(&self) -> (r: [u8; 32])
        ensures
            r@ == self.key_bytes(),
    {
        self.key
    }

    /// A new random key.
    pub fn new() -> (r: Self)
        ensures
            r.key_bytes().len() == KEY_SIZE,
            r.derivation() is None,
    {
        BackupRecoveryKey { key: random_key(), passphrase_info: None }
    }

    /// Reads a key from base64.
    pub fn from_base64(key: String) -> (r: Result<Self, DecodeError>)
        ensures
            match r {
                Ok(k) => key_of_base64(key@) == Some(k.key_bytes()) && k.derivation() is None,
                Err(e) => key_of_base64(key@) is None && e is Decode,
            },
    {
        match decode_base64(key.as_str()) {
            Ok(key) => Ok(BackupRecoveryKey { key, passphrase_info: None }),
            Err(e) => Err(DecodeError::Decode(e)),
        }
    }

    /// Reads a key from base58, the form in which a user writes it down.
    pub fn from_base58(key: String) -> (r: Result<Self, DecodeError>)
        ensures
            match r {
                Ok(k) => key_of_base58(key@) == Some(k.key_bytes()) && k.derivation() is None,
                Err(e) => key_of_base58(key@) is None && e is Decode,
            },
    {
        match decode_base58(key.as_str()) {
            Ok(key) => Ok(BackupRecoveryKey { key, passphrase_info: None }),
            Err(e) => Err(DecodeError::Decode(e)),
        }
    }

    /// Derives a new key from a passphrase, with a salt made at random and
    /// `PBKDF_ROUNDS` rounds.
    pub fn new_from_passphrase(passphrase: String) -> (r: Self)
        ensures
            r.derivation() is Some,
            is_fresh_salt(r.derivation()->0.private_key_salt@),
            r.derivation()->0.private_key_iterations == PBKDF_ROUNDS,
            r.key_bytes() == pbkdf2_hmac_sha512(
                passphrase@,
                r.derivation()->0.private_key_salt@,
                PBKDF_ROUNDS as u32,
            ),
    {
        let salt = random_alphanumeric(SALT_SIZE);
        BackupRecoveryKey::from_passphrase(passphrase, salt, PBKDF_ROUNDS)
    }

    /// Derives the key that a passphrase gives with a salt and a number of
    /// rounds: the way back to a key that was made by `new_from_passphrase`.
    /// A negative number of rounds is read as the unsigned number with the
    /// same 32 bits.
    pub fn from_passphrase(passphrase: String, salt: String, rounds: i32) -> (r: Self)
        ensures
            r.key_bytes() == pbkdf2_hmac_sha512(passphrase@, salt@, rounds_of(rounds)),
            r.derivation() == Some(
                PassphraseInfo { private_key_salt: salt, private_key_iterations: rounds },
            ),
    {
        let unsigned: u32 = unsigned_rounds(rounds);
        let key = derive_key(passphrase.as_str(), salt.as_str(), unsigned);
        BackupRecoveryKey {
            key,
            passphrase_info: Some(
                PassphraseInfo { private_key_salt: salt, private_key_iterations: rounds },
            ),
        }
    }

    /// The public half of the key.
    pub fn megolm_v1_public_key(&self) -> (r: MegolmV1BackupKey)
        ensures
            r.public_key@ == public_key_of(self.key_bytes()),
            r.signatures@ == no_signatures(),
            r.passphrase_info == self.derivation(),
            r.backup_algorithm@ == backup_algorithm(),
    {
        let (public_key, backup_algorithm) = public_parts(&self.key);
        let signatures = public_signatures(&self.key);
        let passphrase_info = match &self.passphrase_info {
            Some(info) => Some(info.clone()),
            None => None,
        };
        MegolmV1BackupKey { public_key, signatures, passphrase_info, backup_algorithm }
    }

    /// The key in base58.
    pub fn to_base58(&self) -> (r: String)
        ensures
            r@ == base58_of_key(self.key_bytes()),
    {
        encode_base58(&self.key)
    }

    /// The key in base64.
    pub fn to_base64(&self) -> (r: String)
        ensures
            r@ == base64_of_key(self.key_bytes()),
    {
        encode_base64(&self.key)
    }

    /// Decrypts a message that was encrypted to the public half of the key.
    pub fn decrypt_v1(&self, ephemeral_key: String, mac: String, ciphertext: String) -> (r: Result<
        String,
        PkDecryptionError,
    >)
        ensures
            match r {
                Ok(clear) => pk_decrypted(self.key_bytes(), ephemeral_key@, mac@, ciphertext@)
                    == Some(clear@),
                Err(e) => pk_decrypted(self.key_bytes(), ephemeral_key@, mac@, ciphertext@)
                    is None,
            },
    {
        match decrypt_message(&self.key, ephemeral_key.as_str(), mac.as_str(), ciphertext.as_str()) {
            Ok(clear) => Ok(clear),
            Err(e) => Err(PkDecryptionError::Olm(e)),
        }
    }
}

/// The unsigned number with the 32 bits of `rounds`.
pub fn unsigned_rounds(rounds: i32) -> (r: u32)
    ensures
        r == rounds_of(rounds),
{
    if rounds >= 0 {
        rounds as u32
    } else {
        let below: u32 = (-(rounds + 1)) as u32;
        u32::MAX - below
    }
}

} // verus!
