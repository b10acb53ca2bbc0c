//! The server-side backup of room keys.
//!
//! Room keys are encrypted to the public half of the backup key before they
//! are uploaded; the machine needs the private half for nothing.

use vstd::prelude::*;
use matrix_sdk_crypto::backups::DecodeError as InnerDecodeError;
use matrix_sdk_crypto::backups::MegolmV1BackupKey as InnerBackupKey;
use matrix_sdk_crypto::store::BackupDecryptionKey;
use matrix_sdk_crypto::store::BackupKeys as StoredBackupKeys;
use matrix_sdk_crypto::store::RoomKeyCounts as StoredRoomKeyCounts;
use matrix_sdk_crypto::types::RoomKeyBackupInfo;
use matrix_sdk_crypto::CryptoStoreError as InnerStoreError;
use matrix_sdk_crypto::KeysBackupRequest;
use matrix_sdk_crypto::OlmMachine as InnerMachine;
use tokio::runtime::Runtime;
use crate::error::CryptoStoreError;
use crate::machine::OlmMachine;
use crate::recovery_key::key_of_base64;
use crate::recovery_key::BackupRecoveryKey;
use crate::recovery_key::DecodeError;
use crate::recovery_key::MegolmV1BackupKey;
use crate::requests::Request;
use crate::types::is_recovery_key_text;
use crate::types::BackupKeys;
use crate::types::RoomKeyCounts;

verus! {

#[verifier::external_type_specification]
#[verifier::external_body]
pub struct ExInnerBackupKey(InnerBackupKey);

#[verifier::external_type_specification]
#[verifier::external_body]
pub struct ExRoomKeyBackupInfo(RoomKeyBackupInfo);

/// Whether a text is a public backup key in base64: whether
/// `MegolmV1BackupKey::from_base64` reads it.
pub uninterp spec fn is_backup_public_key(text: Seq<char>) -> bool;

/// Whether a text describes a backup version: whether `serde_json::from_str`
/// reads a `RoomKeyBackupInfo` from it.
pub uninterp spec fn is_backup_info(text: Seq<char>) -> bool;

/// The recovery key that is saved for a text: the key that the text stands
/// for in base64, and nothing for a text that stands for none.
pub open spec fn key_to_save(key: Option<String>) -> Option<Seq<u8>> {
    match key {
        Some(text) => key_of_base64(text@),
        None => None,
    }
}

/// Calls `MegolmV1BackupKey::from_base64`, and `set_version` on the key that
/// it reads.
#[verifier::external_body]
fn parse_backup_key(public_key: &str, version: String) -> (r: Result<
    InnerBackupKey,
    InnerDecodeError,
>)
    ensures
        r is Ok <==> is_backup_public_key(public_key@),
{
    let key = InnerBackupKey::from_base64(public_key)?;
    key.set_version(version);
    Ok(key)
}

/// Runs `BackupMachine::enable_backup_v1` to completion.
#[verifier::external_body]
fn enable_backup(
    runtime: &Runtime,
    machine: &InnerMachine,
    key: InnerBackupKey,
) -> Result<(), InnerStoreError> {
    runtime.block_on(machine.backup_machine().enable_backup_v1(key))
}

/// Runs `BackupMachine::enabled` to completion.
#[verifier::external_body]
fn backup_is_enabled(runtime: &Runtime, machine: &InnerMachine) -> bool {
    runtime.block_on(machine.backup_machine().enabled())
}

/// Runs `BackupMachine::disable_backup` to completion.
#[verifier::external_body]
fn disable(runtime: &Runtime, machine: &InnerMachine) -> Result<(), InnerStoreError> {
    runtime.block_on(machine.backup_machine().disable_backup())
}

/// Runs `BackupMachine::backup` to completion, and writes the transaction id
/// of the upload as text.
#[verifier::external_body]
fn backup_batch(
    runtime: &Runtime,
    machine: &InnerMachine,
) -> Result<Option<(String, KeysBackupRequest)>, InnerStoreError> {
    let batch = runtime.block_on(machine.backup_machine().backup())?;
    Ok(batch.map(|(id, request)| (id.to_string(), request)))
}

/// Runs `BackupMachine::room_key_counts` to completion.
#[verifier::external_body]
fn key_counts(
    runtime: &Runtime,
    machine: &InnerMachine,
) -> Result<StoredRoomKeyCounts, InnerStoreError> {
    runtime.block_on(machine.backup_machine().room_key_counts())
}

/// Runs `BackupMachine::save_decryption_key` to completion, with the
/// `BackupDecryptionKey` of the bytes.
#[verifier::external_body]
fn save_key(
    runtime: &Runtime,
    machine: &InnerMachine,
    key: Option<[u8; 32]>,
    version: Option<String>,
) -> Result<(), InnerStoreError> {
    let key = key.map(|k| BackupDecryptionKey::from_bytes(&k));
    runtime.block_on(machine.backup_machine().save_decryption_key(key, version))
}

/// Runs `BackupMachine::get_backup_keys` to completion.
#[verifier::external_body]
fn stored_keys(
    runtime: &Runtime,
    machine: &InnerMachine,
) -> Result<StoredBackupKeys, InnerStoreError> {
    runtime.block_on(machine.backup_machine().get_backup_keys())
}

/// Calls `serde_json::from_str` for the description of a backup version.
#[verifier::external_body]
fn parse_backup_info(text: &str) -> (r: Result<RoomKeyBackupInfo, serde_json::Error>)
    ensures
        r is Ok <==> is_backup_info(text@),
{
    serde_json::from_str(text)
}

/// Runs `BackupMachine::verify_backup` to completion, without computing
/// every signature, and asks the result whether it is `trusted`.
#[verifier::external_body]
fn backup_is_trusted(
    runtime: &Runtime,
    machine: &InnerMachine,
    info: RoomKeyBackupInfo,
) -> Result<bool, InnerStoreError> {
    runtime.block_on(machine.backup_machine().verify_backup(info, false)).map(|v| v.trusted())
}

/// The recovery key that a text gives to be saved: the key that it stands
/// for in base64.  A text that stands for no key gives nothing, without
/// complaint.
pub fn recovery_key_to_save(key: Option<String>) -> (r: Option<[u8; 32]>)
    ensures
        r is Some <==> key_to_save(key) is Some,
        r is Some ==> r->0@ == key_to_save(key)->0,
{
    match key {
        Some(text) => match BackupRecoveryKey::from_base64(text) {
            Ok(key) => Some(key.bytes()),
            Err(_) => None,
        },
        None => None,
    }
}

impl OlmMachine {
    /// Activates a backup: from now on room keys are encrypted to `key` and
    /// uploaded under `version`.
    ///
    /// The caller has to make sure that the key can be trusted, with
    /// `verify_backup` for one: room keys encrypted to a key of somebody else
    /// are room keys given away.
    pub fn enable_backup_v1(&self, key: MegolmV1BackupKey, version: String) -> (r: Result<
        (),
        DecodeError,
    >)
        ensures
            !is_backup_public_key(key.public_key@) ==> r is Err && r->Err_0 is Decode,
            is_backup_public_key(key.public_key@) && r is Err ==> r->Err_0 is CryptoStore,
    {
        let backup_key = match parse_backup_key(key.public_key.as_str(), version) {
            Ok(key) => key,
            Err(e) => { return Err(DecodeError::Decode(e)); },
        };
        match enable_backup(&self.runtime, self.inner(), backup_key) {
            Ok(()) => Ok(()),
            Err(e) => Err(DecodeError::CryptoStore(e)),
        }
    }

    /// Whether a backup is active: whether the machine holds a backup key
    /// with a version.
    pub fn backup_enabled(&self) -> bool {
        backup_is_enabled(&self.runtime, self.inner())
    }

    /// Ends the backup: forgets the backup key and the upload that is under
    /// way, and marks every room key as not backed up.  This cannot be
    /// undone.
    pub fn disable_backup(&self) -> (r: Result<(), CryptoStoreError>)
        ensures
            r is Err ==> r->Err_0 is CryptoStore,
    {
        match disable(&self.runtime, self.inner()) {
            Ok(()) => Ok(()),
            Err(e) => Err(CryptoStoreError::CryptoStore(e)),
        }
    }

    /// The next upload to the backup: a batch of room keys that are not
    /// backed up yet, encrypted to the backup key.  Nothing comes back where
    /// no backup is active or nothing is left to upload.
    pub fn backup_room_keys(&mut self) -> (r: Result<Option<Request>, CryptoStoreError>)
        ensures
            r matches Ok(Some(request)) ==> request is KeysBackup && request.well_formed(),
            r is Err ==> r->Err_0 is CryptoStore || r->Err_0 is Serialization,
            final(self).handed_out_since(old(self)),
            r matches Ok(Some(request)) ==> final(self).was_issued(request.id()),
    {
        let (request_id, batch) = match backup_batch(&self.runtime, self.inner()) {
            Ok(Some(next)) => next,
            Ok(None) => { return Ok(None); },
            Err(e) => { return Err(CryptoStoreError::CryptoStore(e)); },
        };
        match Request::from_keys_backup(request_id, &batch) {
            Ok(request) => {
                self.issue(request.request_id().as_str());
                Ok(Some(request))
            },
            Err(e) => Err(CryptoStoreError::Serialization(e)),
        }
    }

    /// How many room keys there are, and how many of them are backed up.
    pub fn room_key_counts(&self) -> (r: Result<RoomKeyCounts, CryptoStoreError>)
        ensures
            r is Err ==> r->Err_0 is CryptoStore,
    {
        match key_counts(&self.runtime, self.inner()) {
            Ok(counts) => Ok(RoomKeyCounts::from_stored(&counts)),
            Err(e) => Err(CryptoStoreError::CryptoStore(e)),
        }
    }

    /// Saves the recovery key and the version of the backup in the store, so
    /// that they can be handed to our other devices.
    ///
    /// `key` is the recovery key in base64.  A text that is no key is saved
    /// as no key.
    pub fn save_recovery_key(&self, key: Option<String>, version: Option<String>) -> (r: Result<
        (),
        CryptoStoreError,
    >)
        ensures
            r is Err ==> r->Err_0 is CryptoStore,
    {
        let key = recovery_key_to_save(key);
        match save_key(&self.runtime, self.inner(), key, version) {
            Ok(()) => Ok(()),
            Err(e) => Err(CryptoStoreError::CryptoStore(e)),
        }
    }

    /// The recovery key and the version that the store holds, if it holds
    /// both.
    pub fn get_backup_keys(&self) -> (r: Result<Option<BackupKeys>, CryptoStoreError>)
        ensures
            r is Ok && r->Ok_0 is Some ==> is_recovery_key_text(r->Ok_0->0.recovery_key@),
            r is Err ==> r->Err_0 is CryptoStore,
    {
        match stored_keys(&self.runtime, self.inner()) {
            Ok(keys) => Ok(BackupKeys::from_stored(&keys)),
            Err(e) => Err(CryptoStoreError::CryptoStore(e)),
        }
    }

    /// Whether a backup version can be trusted: whether its public key is
    /// signed by this device, by our trusted identity, or by a trusted
    /// device of ours.
    ///
    /// `auth_data` is the description of the backup version, as JSON.  A
    /// backup that is not signed, or not by anything we trust, is no error:
    /// the answer is `false`.
    pub fn verify_backup(&self, auth_data: &str) -> (r: Result<bool, CryptoStoreError>)
        ensures
            !is_backup_info(auth_data@) ==> r is Err && r->Err_0 is Serialization,
            is_backup_info(auth_data@) && r is Err ==> r->Err_0 is CryptoStore,
    {
        let info = match parse_backup_info(auth_data) {
            Ok(info) => info,
            Err(e) => { return Err(CryptoStoreError::Serialization(e)); },
        };
        match backup_is_trusted(&self.runtime, self.inner(), info) {
            Ok(trusted) => Ok(trusted),
            Err(e) => Err(CryptoStoreError::CryptoStore(e)),
        }
    }
}

} // verus!
