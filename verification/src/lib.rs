//! The state machine of an end-to-end encryption engine for Matrix: devices
//! and identities, pairwise and group sessions, the queue of outgoing
//! requests, interactive verification and key backup.
//!
//! The cryptography and the bookkeeping of sessions are done by
//! `matrix-sdk-crypto`; this crate decides what is handed to it and what is
//! made of its answers, and states both as contracts.

pub mod device;
pub mod error;
pub mod identifiers;
pub mod json;
pub mod logger;
pub mod machine;
pub mod recovery_key;
pub mod requests;
pub mod runtime;
pub mod types;
pub mod users;
pub mod verification;

pub use device::Device;
pub use error::CryptoStoreError;
pub use error::DecryptionError;
pub use error::KeyImportError;
pub use error::SecretImportError;
pub use error::SignatureError;
pub use identifiers::parse_user_id;
pub use logger::Logger;
pub use logger::LoggerWrapper;
pub use machine::KeyRequestPair;
pub use machine::OlmMachine;
pub use recovery_key::BackupRecoveryKey;
pub use recovery_key::DecodeError;
pub use recovery_key::MegolmV1BackupKey;
pub use recovery_key::PassphraseInfo;
pub use recovery_key::PkDecryptionError;
pub use requests::BootstrapCrossSigningResult;
pub use requests::DeviceLists;
pub use requests::KeysImportResult;
pub use requests::OutgoingVerificationRequest;
pub use requests::Request;
pub use requests::RequestType;
pub use requests::SignatureUploadRequest;
pub use requests::UploadSigningKeysRequest;
pub use types::BackupKeys;
pub use types::CrossSigningKeyExport;
pub use types::CrossSigningStatus;
pub use types::DecryptedEvent;
pub use types::ProgressListener;
pub use types::RoomKeyCounts;
pub use users::UserIdentity;
pub use verification::CancelInfo;
pub use verification::ConfirmVerificationResult;
pub use verification::FlowStep;
pub use verification::QrCode;
pub use verification::RequestVerificationResult;
pub use verification::Sas;
pub use verification::ScanResult;
pub use verification::StartSasResult;
pub use verification::Verification;
pub use verification::VerificationRequest;
