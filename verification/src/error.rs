//! The errors that the state machine hands to its caller.
//!
//! Each enum keeps the failure of the underlying library as it came, so that
//! nothing is lost on the way out, beside the failures that this crate finds
//! itself: an identifier that is none, a device or identity that is unknown.

use vstd::prelude::*;
use matrix_sdk_crypto::CryptoStoreError as InnerStoreError;
use matrix_sdk_crypto::KeyExportError;
use matrix_sdk_crypto::MegolmError;
use matrix_sdk_crypto::OlmError;
use matrix_sdk_crypto::SecretImportError as InnerSecretImportError;
use matrix_sdk_crypto::SignatureError as InnerSignatureError;
use ruma::IdParseError;

verus! {

#[verifier::external_type_specification]
#[verifier::external_body]
pub struct ExInnerStoreError(InnerStoreError);

#[verifier::external_type_specification]
#[verifier::external_body]
pub struct ExKeyExportError(KeyExportError);

#[verifier::external_type_specification]
#[verifier::external_body]
pub struct ExMegolmError(MegolmError);

#[verifier::external_type_specification]
#[verifier::external_body]
pub struct ExOlmError(OlmError);

#[verifier::external_type_specification]
#[verifier::external_body]
pub struct ExInnerSecretImportError(InnerSecretImportError);

#[verifier::external_type_specification]
#[verifier::external_body]
pub struct ExInnerSignatureError(InnerSignatureError);

#[verifier::external_type_specification]
#[verifier::external_body]
pub struct ExJsonError(serde_json::Error);

/// Why an import of room keys failed.
#[derive(Debug)]
pub enum KeyImportError {
    /// The export could not be decrypted or is not an export.
    Export(KeyExportError),
    /// The store failed.
    CryptoStore(InnerStoreError),
    /// The keys are not the JSON that was expected.
    Json(serde_json::Error),
}

/// Why an import of cross-signing secrets failed.
#[derive(Debug)]
pub enum SecretImportError {
    /// The store failed.
    CryptoStore(InnerStoreError),
    /// A secret does not match the public identity, or cannot be decoded.
    Import(InnerSecretImportError),
}

/// Why a device or an identity could not be signed.
#[derive(Debug)]
pub enum SignatureError {
    /// Signing itself failed, for want of a private key among other reasons.
    Signature(InnerSignatureError),
    /// The user identifier is none.
    Identifier(IdParseError),
    /// The store failed.
    CryptoStore(InnerStoreError),
    /// No such device is known: the user, then the device.
    UnknownDevice(String, String),
    /// No identity is known of the user.
    UnknownUserIdentity(String),
}

/// Why an operation of the state machine failed.
#[derive(Debug)]
pub enum CryptoStoreError {
    /// The store failed.
    CryptoStore(InnerStoreError),
    /// A pairwise session or the account failed.
    OlmError(OlmError),
    /// A value is not the JSON that was expected.
    Serialization(serde_json::Error),
    /// The string is no user identifier: the string, then what is wrong
    /// with it.
    InvalidUserId(String, IdParseError),
    /// A room or event identifier is none.
    Identifier(IdParseError),
    /// The room has no room key to encrypt with: a room key has to be shared
    /// first.  Holds the room.
    NoRoomKey(String),
    /// The machine handed out no request under the id that a response was
    /// reported for.  Holds the id.
    UnknownRequest(String),
}

/// Why a room event could not be decrypted, or its key not be requested.
#[derive(Debug)]
pub enum DecryptionError {
    /// The event is not the JSON of an encrypted room event.
    Serialization(serde_json::Error),
    /// The room identifier is none.
    Identifier(IdParseError),
    /// The group session of the event is unknown: its room key is missing,
    /// and can be asked for.
    MissingRoomKey(MegolmError),
    /// The group session refused for another reason: the ciphertext is bad,
    /// or the store failed.
    Megolm(MegolmError),
}

/// Tells a missing room key from every other failure of the group session:
/// reads the variant of `matrix_sdk_crypto::MegolmError`.  Nothing is claimed
/// of which one a given event yields.
#[verifier::external_body]
pub(crate) fn is_missing_room_key(e: &MegolmError) -> bool {
    match e {
        MegolmError::MissingRoomKey(_) => true,
        _ => false,
    }
}

impl DecryptionError {
    /// The failure of a group session as an error of its kind:
    /// `MissingRoomKey` where the room key is missing, `Megolm` for every
    /// other failure.
    pub fn of_group_session(missing_room_key: bool, e: MegolmError) -> (r: DecryptionError)
        ensures
            missing_room_key ==> r == DecryptionError::MissingRoomKey(e),
            !missing_room_key ==> r == DecryptionError::Megolm(e),
    {
        if missing_room_key {
            DecryptionError::MissingRoomKey(e)
        } else {
            DecryptionError::Megolm(e)
        }
    }

    /// The failure of a group session as an error of its kind, the kind
    /// read from the failure itself.
    pub(crate) fn from_megolm(e: MegolmError) -> (r: DecryptionError)
        ensures
            r == DecryptionError::MissingRoomKey(e) || r == DecryptionError::Megolm(e),
    {
        let missing_room_key = is_missing_room_key(&e);
        DecryptionError::of_group_session(missing_room_key, e)
    }

    /// Whether asking for the room key again can mend the failure: true of
    /// a missing room key, and of nothing else; bad input and bad
    /// ciphertext stay bad.
    pub fn is_recoverable(&self) -> (r: bool)
        ensures
            r == (self is MissingRoomKey),
    {
        match self {
            DecryptionError::MissingRoomKey(_) => true,
            _ => false,
        }
    }
}

} // verus!
