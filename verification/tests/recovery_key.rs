use matrix_crypto::recovery_key::unsigned_rounds;
use matrix_crypto::BackupRecoveryKey;
use matrix_crypto::DecodeError;
use matrix_crypto::PkDecryptionError;

const ZERO_KEY_BASE64: &str = "AAAAAAAAAAAAAAAAAAAAAAAAAAAAAAAAAAAAAAAAAAA";
const ZERO_KEY_BASE58: &str = "EsSzygLvVP1bxF1Cv7kEeBQxMxDPbuG5w25TL3b6hfyGKkrd";

#[test]
fn passphrase_key_is_pbkdf2_hmac_sha512() {
    let key = BackupRecoveryKey::from_passphrase("password".to_owned(), "salt".to_owned(), 1);
    assert_eq!(key.to_base64(), "hn9wzxreAs/zdSWZo6U9xK80x6ZpgVrl1RNVThyM8lI");
    let key = BackupRecoveryKey::from_passphrase("password".to_owned(), "salt".to_owned(), 2);
    assert_eq!(key.to_base64(), "4dnBaqaBcIpF9cfE4hXOtm4BGi6fAEBxPxiu/bhm1Tw");
    let key = BackupRecoveryKey::from_passphrase("passphrase".to_owned(), "NaCl".to_owned(), 10);
    assert_eq!(key.to_base64(), "PgvzV8GRglmXLJsw95zAwGDyJZ70ppqjMfgqMG7FY54");
}

#[test]
fn passphrase_key_in_base58() {
    let key = BackupRecoveryKey::from_passphrase("password".to_owned(), "salt".to_owned(), 1);
    assert_eq!(key.to_base58(), "EsTgw2G8hQgTGw8UgBNHvdtSforSaCVWiv7gNenvNNQUqrA3");
}

#[test]
fn passphrase_info_is_kept() {
    let key = BackupRecoveryKey::from_passphrase("secret".to_owned(), "pepper".to_owned(), 7);
    let public = key.megolm_v1_public_key();
    let info = public.passphrase_info.expect("a key from a passphrase tells how it was derived");
    assert_eq!(info.private_key_salt, "pepper");
    assert_eq!(info.private_key_iterations, 7);
    assert_eq!(public.backup_algorithm, "m.megolm_backup.v1.curve25519-aes-sha2");
    assert!(public.signatures.is_empty());
    assert!(!public.public_key.is_empty());
}

#[test]
fn zero_rounds_derive_like_one_round() {
    let zero = BackupRecoveryKey::from_passphrase("password".to_owned(), "salt".to_owned(), 0);
    let one = BackupRecoveryKey::from_passphrase("password".to_owned(), "salt".to_owned(), 1);
    assert_eq!(zero.to_base64(), one.to_base64());
    let info = zero.megolm_v1_public_key().passphrase_info.unwrap();
    assert_eq!(info.private_key_iterations, 0);
}

#[test]
fn rounds_are_read_as_unsigned() {
    assert_eq!(unsigned_rounds(0), 0);
    assert_eq!(unsigned_rounds(500_000), 500_000);
    assert_eq!(unsigned_rounds(i32::MAX), 2_147_483_647);
    assert_eq!(unsigned_rounds(-1), u32::MAX);
    assert_eq!(unsigned_rounds(i32::MIN), 2_147_483_648);
}

#[test]
fn fresh_passphrase_key_has_fresh_salt() {
    let key = BackupRecoveryKey::new_from_passphrase("secret".to_owned());
    let info = key.megolm_v1_public_key().passphrase_info.unwrap();
    assert_eq!(info.private_key_iterations, 500_000);
    assert_eq!(info.private_key_salt.len(), 32);
    assert!(info.private_key_salt.chars().all(|c| c.is_ascii_alphanumeric()));
    let again = BackupRecoveryKey::from_passphrase(
        "secret".to_owned(),
        info.private_key_salt.clone(),
        info.private_key_iterations,
    );
    assert_eq!(again.to_base64(), key.to_base64());
}

#[test]
fn base64_round_trip() {
    let key = BackupRecoveryKey::from_base64(ZERO_KEY_BASE64.to_owned()).unwrap();
    assert_eq!(key.to_base64(), ZERO_KEY_BASE64);
    assert_eq!(key.to_base58(), ZERO_KEY_BASE58);
    assert!(key.megolm_v1_public_key().passphrase_info.is_none());
}

#[test]
fn base58_round_trip() {
    let key = BackupRecoveryKey::from_base58(ZERO_KEY_BASE58.to_owned()).unwrap();
    assert_eq!(key.to_base64(), ZERO_KEY_BASE64);
    let spaced = "EsSz ygLv VP1b xF1C v7kE eBQx MxDP buG5 w25T L3b6 hfyG Kkrd";
    let key = BackupRecoveryKey::from_base58(spaced.to_owned()).unwrap();
    assert_eq!(key.to_base58(), ZERO_KEY_BASE58);
}

#[test]
fn random_keys_differ_and_round_trip() {
    let a = BackupRecoveryKey::new();
    let b = BackupRecoveryKey::new();
    assert_ne!(a.to_base64(), b.to_base64());
    let back = BackupRecoveryKey::from_base64(a.to_base64()).unwrap();
    assert_eq!(back.to_base58(), a.to_base58());
    let back = BackupRecoveryKey::from_base58(a.to_base58()).unwrap();
    assert_eq!(back.to_base64(), a.to_base64());
    assert_eq!(back.megolm_v1_public_key().public_key, a.megolm_v1_public_key().public_key);
}

#[test]
fn bad_encodings_are_refused() {
    assert!(matches!(
        BackupRecoveryKey::from_base64("not base64!".to_owned()),
        Err(DecodeError::Decode(_))
    ));
    assert!(matches!(
        BackupRecoveryKey::from_base64("AAAA".to_owned()),
        Err(DecodeError::Decode(_))
    ));
    assert!(matches!(
        BackupRecoveryKey::from_base58("0OIl".to_owned()),
        Err(DecodeError::Decode(_))
    ));
    let wrong_parity = "EsSzygLvVP1bxF1Cv7kEeBQxMxDPbuG5w25TL3b6hfyGKkre";
    assert!(matches!(
        BackupRecoveryKey::from_base58(wrong_parity.to_owned()),
        Err(DecodeError::Decode(_))
    ));
}

#[test]
fn garbage_does_not_decrypt() {
    let key = BackupRecoveryKey::new();
    let r = key.decrypt_v1("x".to_owned(), "y".to_owned(), "z".to_owned());
    assert!(matches!(r, Err(PkDecryptionError::Olm(_))));
    let public = key.megolm_v1_public_key().public_key;
    let r = key.decrypt_v1(public, "AAAAAAAAAAA".to_owned(), "AAAA".to_owned());
    assert!(matches!(r, Err(PkDecryptionError::Olm(_))));
}
