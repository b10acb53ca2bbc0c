#![allow(unused_mut)]

use matrix_crypto::BackupRecoveryKey;
use matrix_crypto::CrossSigningKeyExport;
use matrix_crypto::CryptoStoreError;
use matrix_crypto::DecodeError;
use matrix_crypto::DeviceLists;
use matrix_crypto::MegolmV1BackupKey;
use matrix_crypto::OlmMachine;
use matrix_crypto::Request;
use matrix_crypto::RequestType;
use matrix_crypto::RoomKeyCounts;
use matrix_crypto::SecretImportError;
use matrix_crypto::UserIdentity;
use serde_json::Value;

const ANNA: &str = "@anna:example.org";

fn anna() -> OlmMachine {
    let path = format!("/tmp/matrix_crypto_tests/{:016x}", rand::random::<u64>());
    OlmMachine::new(ANNA, "ANNADEVICE", &path).expect("a machine on a new store")
}

fn with_room_keys(rooms: usize) -> OlmMachine {
    let mut machine = anna();
    for request in machine.outgoing_requests().unwrap().iter() {
        if let Request::KeysUpload { request_id, .. } = request {
            let response = "{\"one_time_key_counts\": {\"signed_curve25519\": 50}}";
            machine.mark_request_as_sent(request_id, RequestType::KeysUpload, response).unwrap();
        }
    }
    for i in 0..rooms {
        let room = format!("!room{}:example.org", i);
        let _ = machine.share_room_key(&room, vec![ANNA.to_owned()]).unwrap();
    }
    machine
}

fn backup_info(public_key: &str) -> String {
    format!(
        "{{\"algorithm\":\"m.megolm_backup.v1.curve25519-aes-sha2\",\"auth_data\":{{\"public_key\":\"{}\",\"signatures\":{{}}}}}}",
        public_key
    )
}

#[test]
fn backup_is_off_until_enabled() {
    let mut machine = with_room_keys(2);
    assert!(!machine.backup_enabled());
    assert!(machine.backup_room_keys().unwrap().is_none());
    assert_eq!(machine.room_key_counts().unwrap(), RoomKeyCounts { total: 2, backed_up: 0 });
    let key = BackupRecoveryKey::new().megolm_v1_public_key();
    machine.enable_backup_v1(key, "1".to_owned()).unwrap();
    assert!(machine.backup_enabled());
}

#[test]
fn bad_public_key_enables_nothing() {
    let mut machine = with_room_keys(1);
    let key = MegolmV1BackupKey {
        public_key: "no key at all".to_owned(),
        signatures: Default::default(),
        passphrase_info: None,
        backup_algorithm: "m.megolm_backup.v1.curve25519-aes-sha2".to_owned(),
    };
    let r = machine.enable_backup_v1(key, "1".to_owned());
    assert!(matches!(r, Err(DecodeError::Decode(_))));
    assert!(!machine.backup_enabled());
}

#[test]
fn room_keys_are_backed_up_in_one_batch() {
    let mut machine = with_room_keys(3);
    let recovery = BackupRecoveryKey::new();
    machine.enable_backup_v1(recovery.megolm_v1_public_key(), "7".to_owned()).unwrap();
    let request = machine.backup_room_keys().unwrap().expect("room keys wait for the backup");
    let (mut id, mut rooms) = match request {
        Request::KeysBackup { request_id, version, rooms } => {
            assert_eq!(version, "7");
            (request_id, rooms)
        }
        _ => panic!("an upload to the backup"),
    };
    let rooms: Value = serde_json::from_str(&rooms).unwrap();
    let rooms = rooms.as_object().unwrap();
    assert_eq!(rooms.len(), 3);
    for i in 0..3 {
        let sessions = rooms[&format!("!room{}:example.org", i)]["sessions"].as_object().unwrap();
        assert_eq!(sessions.len(), 1);
    }
    // Until the upload is answered, the same upload is handed out.
    match machine.backup_room_keys().unwrap() {
        Some(Request::KeysBackup { request_id, .. }) => assert_eq!(request_id, id),
        _ => panic!("the upload that is under way"),
    }
    assert_eq!(machine.room_key_counts().unwrap(), RoomKeyCounts { total: 3, backed_up: 0 });
    let bad = machine.mark_request_as_sent(&id, RequestType::KeysBackup, "{\"etag\":1}");
    assert!(matches!(bad, Err(CryptoStoreError::Serialization(_))));
    assert_eq!(machine.room_key_counts().unwrap(), RoomKeyCounts { total: 3, backed_up: 0 });
    machine
        .mark_request_as_sent(&id, RequestType::KeysBackup, "{\"etag\":\"1\",\"count\":3}")
        .unwrap();
    assert_eq!(machine.room_key_counts().unwrap(), RoomKeyCounts { total: 3, backed_up: 3 });
    assert!(machine.backup_room_keys().unwrap().is_none());
}

#[test]
fn backed_up_keys_decrypt_with_the_recovery_key() {
    let mut machine = with_room_keys(1);
    let recovery = BackupRecoveryKey::from_passphrase("secret".to_owned(), "salt".to_owned(), 3);
    machine.enable_backup_v1(recovery.megolm_v1_public_key(), "1".to_owned()).unwrap();
    let rooms = match machine.backup_room_keys().unwrap() {
        Some(Request::KeysBackup { rooms, .. }) => rooms,
        _ => panic!("an upload to the backup"),
    };
    let rooms: Value = serde_json::from_str(&rooms).unwrap();
    let sessions = rooms["!room0:example.org"]["sessions"].as_object().unwrap();
    let (mut session_id, mut backed_up) = sessions.iter().next().unwrap();
    let data = &backed_up["session_data"];
    let text = |v: &Value| v.as_str().unwrap().to_owned();
    let clear = recovery
        .decrypt_v1(text(&data["ephemeral"]), text(&data["mac"]), text(&data["ciphertext"]))
        .unwrap();
    let key: Value = serde_json::from_str(&clear).unwrap();
    assert_eq!(key["algorithm"], "m.megolm.v1.aes-sha2");
    assert!(key["session_key"].is_string());
    assert!(!session_id.is_empty());
    let other = BackupRecoveryKey::new();
    let r = other.decrypt_v1(text(&data["ephemeral"]), text(&data["mac"]), text(&data["ciphertext"]));
    assert!(r.is_err());
}

#[test]
fn disabling_resets_what_is_backed_up() {
    let mut machine = with_room_keys(2);
    let recovery = BackupRecoveryKey::new();
    machine.enable_backup_v1(recovery.megolm_v1_public_key(), "1".to_owned()).unwrap();
    let id = match machine.backup_room_keys().unwrap() {
        Some(Request::KeysBackup { request_id, .. }) => request_id,
        _ => panic!("an upload to the backup"),
    };
    machine
        .mark_request_as_sent(&id, RequestType::KeysBackup, "{\"etag\":\"1\",\"count\":2}")
        .unwrap();
    assert_eq!(machine.room_key_counts().unwrap(), RoomKeyCounts { total: 2, backed_up: 2 });
    machine.disable_backup().unwrap();
    assert!(!machine.backup_enabled());
    assert_eq!(machine.room_key_counts().unwrap(), RoomKeyCounts { total: 2, backed_up: 0 });
    assert!(machine.backup_room_keys().unwrap().is_none());
    // A new backup takes every key again.
    let other = BackupRecoveryKey::new();
    machine.enable_backup_v1(other.megolm_v1_public_key(), "2".to_owned()).unwrap();
    match machine.backup_room_keys().unwrap() {
        Some(Request::KeysBackup { version, rooms, .. }) => {
            assert_eq!(version, "2");
            let rooms: Value = serde_json::from_str(&rooms).unwrap();
            assert_eq!(rooms.as_object().unwrap().len(), 2);
        }
        _ => panic!("an upload to the new backup"),
    }
}

#[test]
fn recovery_key_is_kept_in_the_store() {
    let mut machine = anna();
    assert!(machine.get_backup_keys().unwrap().is_none());
    let recovery = BackupRecoveryKey::new();
    machine.save_recovery_key(Some(recovery.to_base64()), None).unwrap();
    assert!(machine.get_backup_keys().unwrap().is_none());
    machine.save_recovery_key(Some(recovery.to_base64()), Some("3".to_owned())).unwrap();
    let keys = machine.get_backup_keys().unwrap().expect("a key and a version");
    assert_eq!(keys.recovery_key, recovery.to_base64());
    assert_eq!(keys.backup_version, "3");
    // What is no key is saved as no key: the key that is there stays.
    machine.save_recovery_key(Some("no key".to_owned()), Some("4".to_owned())).unwrap();
    let keys = machine.get_backup_keys().unwrap().unwrap();
    assert_eq!(keys.recovery_key, recovery.to_base64());
    assert_eq!(keys.backup_version, "4");
}

#[test]
fn unsigned_backup_is_not_trusted() {
    let mut machine = anna();
    let public = BackupRecoveryKey::new().megolm_v1_public_key().public_key;
    assert_eq!(machine.verify_backup(&backup_info(&public)).unwrap(), false);
    let other = "{\"algorithm\":\"org.example.other\",\"auth_data\":{}}";
    assert_eq!(machine.verify_backup(other).unwrap(), false);
    assert!(matches!(machine.verify_backup("{}"), Err(CryptoStoreError::Serialization(_))));
    assert!(matches!(machine.verify_backup("no json"), Err(CryptoStoreError::Serialization(_))));
    let none = DeviceLists { changed: Vec::new(), left: Vec::new() };
    machine.receive_sync_changes("{}", none, Vec::new(), None).unwrap();
    assert!(machine.get_missing_sessions(Vec::new()).unwrap().is_none());
}

#[test]
fn backup_signed_by_this_device_is_trusted() {
    let mut machine = anna();
    let public = BackupRecoveryKey::new().megolm_v1_public_key().public_key;
    let unsigned = format!("{{\"public_key\":\"{}\"}}", public);
    let signatures = machine.sign(&unsigned).unwrap();
    let mut info: Value = serde_json::from_str(&backup_info(&public)).unwrap();
    info["auth_data"]["signatures"] = serde_json::to_value(&signatures).unwrap();
    assert_eq!(machine.verify_backup(&info.to_string()).unwrap(), true);
    // Signed for another key, the signature is worth nothing.
    let other = BackupRecoveryKey::new().megolm_v1_public_key().public_key;
    info["auth_data"]["public_key"] = Value::from(other);
    assert_eq!(machine.verify_backup(&info.to_string()).unwrap(), false);
}

#[test]
fn message_is_signed_by_the_device() {
    let mut machine = anna();
    let signatures = machine.sign("{\"a\":1}").unwrap();
    assert_eq!(signatures.len(), 1);
    let ours = &signatures[ANNA];
    assert_eq!(ours.len(), 1);
    assert!(ours.contains_key("ed25519:ANNADEVICE"));
    machine.bootstrap_cross_signing().unwrap();
    let signatures = machine.sign("{\"a\":1}").unwrap();
    assert_eq!(signatures[ANNA].len(), 2);
    assert!(signatures[ANNA].contains_key("ed25519:ANNADEVICE"));
}

#[test]
fn cross_signing_keys_come_with_bootstrap() {
    let mut machine = anna();
    let status = machine.cross_signing_status();
    assert!(!status.has_master && !status.has_self_signing && !status.has_user_signing);
    assert!(machine.export_cross_signing_keys().unwrap().is_none());
    assert!(machine.get_identity(ANNA).unwrap().is_none());
    let requests = machine.bootstrap_cross_signing().unwrap();
    for (key, usage) in [
        (&requests.upload_signing_keys_request.master_key, "master"),
        (&requests.upload_signing_keys_request.self_signing_key, "self_signing"),
        (&requests.upload_signing_keys_request.user_signing_key, "user_signing"),
    ] {
        let key: Value = serde_json::from_str(key).unwrap();
        assert_eq!(key["user_id"], ANNA);
        assert_eq!(key["usage"][0], usage);
    }
    let signed: Value = serde_json::from_str(&requests.signature_request.body).unwrap();
    assert!(signed[ANNA].is_object());
    let status = machine.cross_signing_status();
    assert!(status.has_master && status.has_self_signing && status.has_user_signing);
    let export = machine.export_cross_signing_keys().unwrap().expect("the keys that were made");
    assert!(export.master_key.is_some());
    assert!(export.self_signing_key.is_some());
    assert!(export.user_signing_key.is_some());
    match machine.get_identity(ANNA).unwrap() {
        Some(UserIdentity::Own { user_id, master_key, .. }) => {
            assert_eq!(user_id, ANNA);
            assert_eq!(master_key, requests.upload_signing_keys_request.master_key);
        }
        _ => panic!("our own identity"),
    }
    assert!(machine.is_identity_verified(ANNA).unwrap());
    let upload = machine.verify_identity(ANNA).unwrap();
    let signed: Value = serde_json::from_str(&upload.body).unwrap();
    assert!(signed[ANNA].is_object());
}

#[test]
fn cross_signing_keys_move_to_another_device() {
    let mut machine = anna();
    machine.bootstrap_cross_signing().unwrap();
    let export = machine.export_cross_signing_keys().unwrap().unwrap();
    let master = export.master_key.clone();
    // The same machine takes its own keys back.
    machine.import_cross_signing_keys(export).unwrap();
    let again = machine.export_cross_signing_keys().unwrap().unwrap();
    assert_eq!(again.master_key, master);
    // Keys that are no keys are refused.
    let bad = CrossSigningKeyExport {
        master_key: Some("no key".to_owned()),
        self_signing_key: None,
        user_signing_key: None,
    };
    assert!(matches!(machine.import_cross_signing_keys(bad), Err(SecretImportError::Import(_))));
    assert_eq!(machine.export_cross_signing_keys().unwrap().unwrap().master_key, master);
}
