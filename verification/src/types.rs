//! Plain records that the state machine hands out, and the callback that it
//! reports progress to.

use vstd::prelude::*;
use matrix_sdk_crypto::store::BackupKeys as StoredBackupKeys;
use crate::recovery_key::base64_of_key;
use matrix_sdk_crypto::store::RoomKeyCounts as StoredRoomKeyCounts;
use matrix_sdk_crypto::CrossSigningKeyExport as InnerCrossSigningKeyExport;
use matrix_sdk_crypto::CrossSigningStatus as InnerCrossSigningStatus;

verus! {

#[verifier::external_type_specification]
#[verifier::external_body]
pub struct ExStoredBackupKeys(StoredBackupKeys);

#[verifier::external_type_specification]
#[verifier::external_body]
pub struct ExStoredRoomKeyCounts(StoredRoomKeyCounts);

#[verifier::external_type_specification]
#[verifier::external_body]
pub struct ExInnerCrossSigningKeyExport(InnerCrossSigningKeyExport);

#[verifier::external_type_specification]
#[verifier::external_body]
pub struct ExInnerCrossSigningStatus(InnerCrossSigningStatus);

/// A callback that is told how far a long import has come.
pub trait ProgressListener {
    /// Called with the number of items that were handled so far and the
    /// number of items that there are.
    fn on_progress(&self, progress: i32, total: i32);
}

/// A room event that was decrypted.
pub struct DecryptedEvent {
    /// The type and the content of the decrypted event, as JSON; every other
    /// field of the event is left out.
    pub clear_event: String,
    /// The curve25519 key of the device that made the room key.
    pub sender_curve25519_key: String,
    /// The ed25519 key that the sender claims to own.
    pub claimed_ed25519_key: Option<String>,
    /// The curve25519 keys of the devices that forwarded the room key to us;
    /// empty where the key came from its maker.
    pub forwarding_curve25519_chain: Vec<String>,
}

/// Which of our private cross-signing keys are stored on this device.
#[derive(Debug, Clone, Copy, PartialEq, Eq, Structural)]
pub struct CrossSigningStatus {
    /// Whether we have the master key.
    pub has_master: bool,
    /// Whether we have the self-signing key, which signs our devices.
    pub has_self_signing: bool,
    /// Whether we have the user-signing key, which signs other users.
    pub has_user_signing: bool,
}

/// Our private cross-signing keys, for secret storage or for another device.
pub struct CrossSigningKeyExport {
    /// The seed of the master key, in unpadded base64.
    pub master_key: Option<String>,
    /// The seed of the self-signing key, in unpadded base64.
    pub self_signing_key: Option<String>,
    /// The seed of the user-signing key, in unpadded base64.
    pub user_signing_key: Option<String>,
}

/// How many room keys there are, and how many of them are backed up.
#[derive(Debug, Clone, Copy, PartialEq, Eq, Structural)]
pub struct RoomKeyCounts {
    /// The number of room keys.
    pub total: i64,
    /// The number of room keys that the server-side backup holds.
    pub backed_up: i64,
}

/// The backup key that the store holds, with the version it belongs to.
pub struct BackupKeys {
    /// The recovery key, in base64.
    pub recovery_key: String,
    /// The version of the backup that the key recovers.
    pub backup_version: String,
}

/// Reads the two fields of a `matrix_sdk_crypto::store::RoomKeyCounts`:
/// total, then backed up.
#[verifier::external_body]
pub(crate) fn stored_counts(counts: &StoredRoomKeyCounts) -> (usize, usize) {
    (counts.total, counts.backed_up)
}

/// Whether a text is a recovery key in base64: what
/// `BackupDecryptionKey::to_base64` writes for a key of 32 bytes.
pub open spec fn is_recovery_key_text(text: Seq<char>) -> bool {
    exists|key: Seq<u8>| key.len() == 32 && text == #[trigger] base64_of_key(key)
}

/// Reads a `matrix_sdk_crypto::store::BackupKeys`: the decryption key
/// through `to_base64`, and the version.
#[verifier::external_body]
pub(crate) fn stored_backup_keys(keys: &StoredBackupKeys) -> (r: (Option<String>, Option<String>))
    ensures
        r.0 is Some ==> is_recovery_key_text(r.0->0@),
{
    (keys.decryption_key.as_ref().map(|k| k.to_base64()), keys.backup_version.clone())
}

/// Reads the three fields of a `matrix_sdk_crypto::CrossSigningStatus`:
/// master, self-signing, user-signing.
#[verifier::external_body]
pub(crate) fn status_fields(status: &InnerCrossSigningStatus) -> (bool, bool, bool) {
    (status.has_master, status.has_self_signing, status.has_user_signing)
}

/// Reads the three seeds of a `matrix_sdk_crypto::CrossSigningKeyExport`:
/// master, self-signing, user-signing.
#[verifier::external_body]
pub(crate) fn export_fields(export: &InnerCrossSigningKeyExport) -> (
    Option<String>,
    Option<String>,
    Option<String>,
) {
    (
        export.master_key.clone(),
        export.self_signing_key.clone(),
        export.user_signing_key.clone(),
    )
}

/// Makes a `matrix_sdk_crypto::CrossSigningKeyExport` of three seeds.
#[verifier::external_body]
pub(crate) fn export_of_fields(
    master_key: Option<String>,
    self_signing_key: Option<String>,
    user_signing_key: Option<String>,
) -> InnerCrossSigningKeyExport {
    InnerCrossSigningKeyExport { master_key, self_signing_key, user_signing_key }
}

/// A count as a signed number of 64 bits.  Counts up to `i64::MAX` keep their
/// value; a larger one wraps around, as a cast does.
pub fn count_as_i64(count: usize) -> (r: i64)
    ensures
        r == count as i64,
        count <= i64::MAX ==> r == count,
{
    #[verifier::truncate]
    (count as i64)
}

/// A count as a signed number of 32 bits.  Counts up to `i32::MAX` keep their
/// value; a larger one wraps around, as a cast does.
pub fn count_as_i32(count: usize) -> (r: i32)
    ensures
        r == count as i32,
        count <= i32::MAX ==> r == count,
{
    #[verifier::truncate]
    (count as i32)
}

/// Tells `listener` that `progress` of `total` items are handled.
pub fn report_progress(listener: &Box<dyn ProgressListener>, progress: usize, total: usize) {
    listener.on_progress(count_as_i32(progress), count_as_i32(total));
}

impl RoomKeyCounts {
    /// The counts of the store as signed numbers.
    pub fn from_counts(total: usize, backed_up: usize) -> (r: RoomKeyCounts)
        ensures
            r.total == total as i64,
            r.backed_up == backed_up as i64,
            total <= i64::MAX ==> r.total == total,
            backed_up <= i64::MAX ==> r.backed_up == backed_up,
    {
        RoomKeyCounts { total: count_as_i64(total), backed_up: count_as_i64(backed_up) }
    }

    /// The plain form of the store's counts.
    pub(crate) fn from_stored(counts: &StoredRoomKeyCounts) -> RoomKeyCounts {
        let (total, backed_up) = stored_counts(counts);
        RoomKeyCounts::from_counts(total, backed_up)
    }
}

/// The backup keys that a recovery key and a version make: both have to be
/// there.
pub open spec fn backup_keys_of(
    recovery_key: Option<String>,
    backup_version: Option<String>,
) -> Option<BackupKeys> {
    if recovery_key is Some && backup_version is Some {
        Some(BackupKeys { recovery_key: recovery_key->0, backup_version: backup_version->0 })
    } else {
        None
    }
}

impl BackupKeys {
    /// Puts a recovery key and its version together.  A key without a
    /// version, and a version without a key, are nothing.
    pub fn from_parts(recovery_key: Option<String>, backup_version: Option<String>) -> (r: Option<
        BackupKeys,
    >)
        ensures
            r == backup_keys_of(recovery_key, backup_version),
    {
        match (recovery_key, backup_version) {
            (Some(recovery_key), Some(backup_version)) => Some(
                BackupKeys { recovery_key, backup_version },
            ),
            _ => None,
        }
    }

    /// The plain form of what the store holds, if it holds both parts.
    pub(crate) fn from_stored(keys: &StoredBackupKeys) -> (r: Option<BackupKeys>)
        ensures
            r is Some ==> is_recovery_key_text(r->0.recovery_key@),
    {
        let (recovery_key, backup_version) = stored_backup_keys(keys);
        BackupKeys::from_parts(recovery_key, backup_version)
    }
}

impl CrossSigningStatus {
    /// The plain form of the status.
    pub(crate) fn from_inner(status: &InnerCrossSigningStatus) -> CrossSigningStatus {
        let (has_master, has_self_signing, has_user_signing) = status_fields(status);
        CrossSigningStatus { has_master, has_self_signing, has_user_signing }
    }
}

impl CrossSigningKeyExport {
    /// The plain form of an export.
    pub(crate) fn from_inner(export: &InnerCrossSigningKeyExport) -> CrossSigningKeyExport {
        let (master_key, self_signing_key, user_signing_key) = export_fields(export);
        CrossSigningKeyExport { master_key, self_signing_key, user_signing_key }
    }

    /// The export as the state machine takes it.
    pub(crate) fn into_inner(self) -> InnerCrossSigningKeyExport {
        export_of_fields(self.master_key, self.self_signing_key, self.user_signing_key)
    }
}

} // verus!
