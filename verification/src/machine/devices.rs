//! The registry of devices and identities.

use vstd::prelude::*;
use matrix_sdk_crypto::CryptoStoreError as InnerStoreError;
use matrix_sdk_crypto::Device as InnerDevice;
use matrix_sdk_crypto::LocalTrust;
use matrix_sdk_crypto::OlmMachine as InnerMachine;
use matrix_sdk_crypto::OwnUserIdentity;
use matrix_sdk_crypto::SignatureError as InnerSignatureError;
use matrix_sdk_crypto::UserIdentities;
use matrix_sdk_crypto::UserIdentity as OtherUserIdentity;
use ruma::api::client::keys::upload_signatures::v3::Request as SignaturesRequest;
use tokio::runtime::Runtime;
use crate::device::Device;
use crate::error::CryptoStoreError;
use crate::error::SignatureError;
use crate::identifiers::all_user_ids;
use crate::identifiers::check_user_id;
use crate::identifiers::parse_user_id;
use crate::identifiers::refuses_user;
use crate::identifiers::texts;
use crate::identifiers::user_id_valid;
use crate::identifiers::valid_user_ids;
use crate::machine::OlmMachine;
use crate::requests::SignatureUploadRequest;
use crate::users::identity_of;
use crate::users::Identity;
use crate::users::UserIdentity;

verus! {

/// Runs `OlmMachine::get_identity` to completion, without waiting for a key
/// query that may be under way.
#[verifier::external_body]
pub(crate) fn lookup_identity(
    runtime: &Runtime,
    machine: &InnerMachine,
    user_id: &str,
) -> Result<Option<UserIdentities>, InnerStoreError>
    requires
        user_id_valid(user_id@),
{
    let user_id = <&ruma::UserId>::try_from(user_id).expect("a checked user id");
    runtime.block_on(machine.get_identity(user_id, None))
}

/// Runs `OlmMachine::get_identity` to completion for the machine's own user.
#[verifier::external_body]
pub(crate) fn lookup_own_identity(
    runtime: &Runtime,
    machine: &InnerMachine,
) -> Result<Option<UserIdentities>, InnerStoreError> {
    runtime.block_on(machine.get_identity(machine.user_id(), None))
}

/// Runs `OlmMachine::get_device` to completion, without waiting for a key
/// query that may be under way.
#[verifier::external_body]
pub(crate) fn lookup_device(
    runtime: &Runtime,
    machine: &InnerMachine,
    user_id: &str,
    device_id: &str,
) -> Result<Option<InnerDevice>, InnerStoreError>
    requires
        user_id_valid(user_id@),
{
    let user_id = <&ruma::UserId>::try_from(user_id).expect("a checked user id");
    runtime.block_on(machine.get_device(user_id, device_id.into(), None))
}

/// Runs `OlmMachine::get_user_devices` to completion and collects
/// `UserDevices::devices`.
#[verifier::external_body]
fn lookup_user_devices(
    runtime: &Runtime,
    machine: &InnerMachine,
    user_id: &str,
) -> Result<Vec<InnerDevice>, InnerStoreError>
    requires
        user_id_valid(user_id@),
{
    let user_id = <&ruma::UserId>::try_from(user_id).expect("a checked user id");
    runtime.block_on(machine.get_user_devices(user_id, None)).map(|d| d.devices().collect())
}

/// Calls `OwnUserIdentity::is_verified`.
#[verifier::external_body]
fn own_is_verified(identity: &OwnUserIdentity) -> bool {
    identity.is_verified()
}

/// Calls `UserIdentity::is_verified`.
#[verifier::external_body]
fn other_is_verified(identity: &OtherUserIdentity) -> bool {
    identity.is_verified()
}

/// Runs `OwnUserIdentity::verify` to completion.
#[verifier::external_body]
fn verify_own(
    runtime: &Runtime,
    identity: &OwnUserIdentity,
) -> Result<SignaturesRequest, InnerSignatureError> {
    runtime.block_on(identity.verify())
}

/// Runs `UserIdentity::verify` to completion.
#[verifier::external_body]
fn verify_other(
    runtime: &Runtime,
    identity: &OtherUserIdentity,
) -> Result<SignaturesRequest, InnerSignatureError> {
    runtime.block_on(identity.verify())
}

/// Runs `Device::verify` to completion.
#[verifier::external_body]
fn verify_inner_device(
    runtime: &Runtime,
    device: &InnerDevice,
) -> Result<SignaturesRequest, InnerSignatureError> {
    runtime.block_on(device.verify())
}

/// Runs `Device::set_local_trust` with `LocalTrust::Verified` to completion.
#[verifier::external_body]
fn trust_device(runtime: &Runtime, device: &InnerDevice) -> Result<(), InnerStoreError> {
    runtime.block_on(device.set_local_trust(LocalTrust::Verified))
}

/// Turns a `serde_json::Error` into the `matrix_sdk_crypto::SignatureError`
/// that wraps it.
#[verifier::external_body]
fn signature_json_error(e: serde_json::Error) -> InnerSignatureError {
    InnerSignatureError::from(e)
}

/// Runs `OlmMachine::update_tracked_users` to completion on the users of the
/// list.
#[verifier::external_body]
fn track_users(
    runtime: &Runtime,
    machine: &InnerMachine,
    users: &Vec<String>,
) -> Result<(), InnerStoreError>
    requires
        all_user_ids(users@),
{
    let users = users.iter().map(|u| <&ruma::UserId>::try_from(u.as_str()).expect("a checked id"));
    runtime.block_on(machine.update_tracked_users(users))
}

/// Runs `OlmMachine::tracked_users` to completion, and hands the users out
/// as text.
#[verifier::external_body]
fn tracked_users(runtime: &Runtime, machine: &InnerMachine) -> Result<
    Vec<String>,
    InnerStoreError,
> {
    let users = runtime.block_on(machine.tracked_users())?;
    Ok(users.iter().map(|u| u.to_string()).collect())
}

/// Whether a text is among the texts of a list.
pub fn is_listed(list: &Vec<String>, text: &str) -> (r: bool)
    ensures
        r == texts(list@).contains(text@),
{
    let wanted: String = text.to_owned();
    let mut i: usize = 0;
    while i < list.len()
        invariant
            0 <= i <= list.len(),
            wanted@ == text@,
            forall|k: int| 0 <= k < i ==> #[trigger] texts(list@)[k] != text@,
        decreases list.len() - i,
    {
        let same: bool = list[i] == wanted;
        if same {
            assert(texts(list@)[i as int] == text@);
            return true;
        }
        i += 1;
    }
    false
}

/// The plain form of a signature upload, or the failure to write it.
fn signature_upload(upload: Result<SignaturesRequest, InnerSignatureError>) -> (r: Result<
    SignatureUploadRequest,
    SignatureError,
>)
    ensures
        upload is Err ==> r is Err,
        r is Err ==> r->Err_0 is Signature,
        r is Ok ==> r->Ok_0.well_formed(),
{
    match upload {
        Ok(upload) => match SignatureUploadRequest::from_upload(&upload) {
            Ok(r) => Ok(r),
            Err(e) => Err(SignatureError::Signature(signature_json_error(e))),
        },
        Err(e) => Err(SignatureError::Signature(e)),
    }
}

impl OlmMachine {
    /// The cross-signing identity of a user, if one is known.
    pub fn get_identity(&self, user_id: &str) -> (r: Result<Option<UserIdentity>, CryptoStoreError>)
        ensures
            !user_id_valid(user_id@) ==> refuses_user(r, user_id@),
            user_id_valid(user_id@) && r is Err ==> r->Err_0 is CryptoStore
                || r->Err_0 is Serialization,
            r is Ok && r->Ok_0 is Some ==> r->Ok_0->0.well_formed(),
    {
        match parse_user_id(user_id) {
            Ok(()) => {},
            Err(e) => { return Err(e); },
        }
        match lookup_identity(&self.runtime, self.inner(), user_id) {
            Ok(Some(identity)) => match UserIdentity::from_identities(&self.runtime, identity) {
                Ok(identity) => Ok(Some(identity)),
                Err(e) => Err(e),
            },
            Ok(None) => Ok(None),
            Err(e) => Err(CryptoStoreError::CryptoStore(e)),
        }
    }

    /// Whether we consider the identity of a user verified.  A user without
    /// a known identity is not.
    pub fn is_identity_verified(&self, user_id: &str) -> (r: Result<bool, CryptoStoreError>)
        ensures
            !user_id_valid(user_id@) ==> refuses_user(r, user_id@),
            user_id_valid(user_id@) && r is Err ==> r->Err_0 is CryptoStore,
    {
        match parse_user_id(user_id) {
            Ok(()) => {},
            Err(e) => { return Err(e); },
        }
        match lookup_identity(&self.runtime, self.inner(), user_id) {
            Ok(Some(identity)) => match identity_of(identity) {
                Identity::Own(i) => Ok(own_is_verified(&i)),
                Identity::Other(i) => Ok(other_is_verified(&i)),
            },
            Ok(None) => Ok(false),
            Err(e) => Err(CryptoStoreError::CryptoStore(e)),
        }
    }

    /// Verifies a user by hand.
    ///
    /// Our own identity is signed with the key of this device, the identity
    /// of another user with our user-signing key; without the private key
    /// the signing fails.  The request that comes back has to be sent for the
    /// verification to show.
    pub fn verify_identity(&self, user_id: &str) -> (r: Result<
        SignatureUploadRequest,
        SignatureError,
    >)
        ensures
            !user_id_valid(user_id@) ==> r is Err && r->Err_0 is Identifier,
            user_id_valid(user_id@) && r is Err ==> !(r->Err_0 is Identifier) && !(r->Err_0
                is UnknownDevice),
            r matches Err(SignatureError::UnknownUserIdentity(u)) ==> u@ == user_id@,
            r is Ok ==> r->Ok_0.well_formed(),
    {
        match check_user_id(user_id) {
            Ok(()) => {},
            Err(e) => { return Err(SignatureError::Identifier(e)); },
        }
        match lookup_identity(&self.runtime, self.inner(), user_id) {
            Ok(Some(identity)) => match identity_of(identity) {
                Identity::Own(i) => signature_upload(verify_own(&self.runtime, &i)),
                Identity::Other(i) => signature_upload(verify_other(&self.runtime, &i)),
            },
            Ok(None) => Err(SignatureError::UnknownUserIdentity(user_id.to_owned())),
            Err(e) => Err(SignatureError::CryptoStore(e)),
        }
    }

    /// A device of a user, if the registry knows it.
    pub fn get_device(&self, user_id: &str, device_id: &str) -> (r: Result<
        Option<Device>,
        CryptoStoreError,
    >)
        ensures
            r is Ok && r->Ok_0 is Some ==> user_id_valid(r->Ok_0->0.user_id@),
            !user_id_valid(user_id@) ==> refuses_user(r, user_id@),
            user_id_valid(user_id@) && r is Err ==> r->Err_0 is CryptoStore,
    {
        match parse_user_id(user_id) {
            Ok(()) => {},
            Err(e) => { return Err(e); },
        }
        match lookup_device(&self.runtime, self.inner(), user_id, device_id) {
            Ok(Some(device)) => Ok(Some(Device::from_inner(&device))),
            Ok(None) => Ok(None),
            Err(e) => Err(CryptoStoreError::CryptoStore(e)),
        }
    }

    /// Verifies a device by hand, by signing it with our self-signing key.
    ///
    /// Only our own devices can be signed; for a device of another user, and
    /// without the private key, the signing fails.  The request that comes
    /// back has to be sent for the verification to show.
    pub fn verify_device(&self, user_id: &str, device_id: &str) -> (r: Result<
        SignatureUploadRequest,
        SignatureError,
    >)
        ensures
            !user_id_valid(user_id@) ==> r is Err && r->Err_0 is Identifier,
            user_id_valid(user_id@) && r is Err ==> !(r->Err_0 is Identifier) && !(r->Err_0
                is UnknownUserIdentity),
            r matches Err(SignatureError::UnknownDevice(u, d)) ==> u@ == user_id@ && d@
                == device_id@,
            r is Ok ==> r->Ok_0.well_formed(),
    {
        match check_user_id(user_id) {
            Ok(()) => {},
            Err(e) => { return Err(SignatureError::Identifier(e)); },
        }
        match lookup_device(&self.runtime, self.inner(), user_id, device_id) {
            Ok(Some(device)) => signature_upload(verify_inner_device(&self.runtime, &device)),
            Ok(None) => Err(
                SignatureError::UnknownDevice(user_id.to_owned(), device_id.to_owned()),
            ),
            Err(e) => Err(SignatureError::CryptoStore(e)),
        }
    }

    /// Marks a device as trusted on this device.  A device that the registry
    /// does not know is passed over.
    pub fn mark_device_as_trusted(&self, user_id: &str, device_id: &str) -> (r: Result<
        (),
        CryptoStoreError,
    >)
        ensures
            !user_id_valid(user_id@) ==> refuses_user(r, user_id@),
            user_id_valid(user_id@) && r is Err ==> r->Err_0 is CryptoStore,
    {
        match parse_user_id(user_id) {
            Ok(()) => {},
            Err(e) => { return Err(e); },
        }
        match lookup_device(&self.runtime, self.inner(), user_id, device_id) {
            Ok(Some(device)) => match trust_device(&self.runtime, &device) {
                Ok(()) => Ok(()),
                Err(e) => Err(CryptoStoreError::CryptoStore(e)),
            },
            Ok(None) => Ok(()),
            Err(e) => Err(CryptoStoreError::CryptoStore(e)),
        }
    }

    /// All devices of a user that the registry knows.
    pub fn get_user_devices(&self, user_id: &str) -> (r: Result<Vec<Device>, CryptoStoreError>)
        ensures
            r is Ok ==> forall|k: int|
                0 <= k < r->Ok_0@.len() ==> user_id_valid((#[trigger] r->Ok_0@[k]).user_id@),
            !user_id_valid(user_id@) ==> refuses_user(r, user_id@),
            user_id_valid(user_id@) && r is Err ==> r->Err_0 is CryptoStore,
    {
        match parse_user_id(user_id) {
            Ok(()) => {},
            Err(e) => { return Err(e); },
        }
        match lookup_user_devices(&self.runtime, self.inner(), user_id) {
            Ok(devices) => Ok(Device::from_list(&devices)),
            Err(e) => Err(CryptoStoreError::CryptoStore(e)),
        }
    }

    /// Starts to track the users of the list: their devices are asked for
    /// with the next key query, and kept up to date from then on.
    ///
    /// Strings that are no user identifiers are dropped, and users that are
    /// tracked already are left as they are.
    pub fn update_tracked_users(&self, users: Vec<String>) -> (r: Result<(), CryptoStoreError>)
        ensures
            r is Err ==> r->Err_0 is CryptoStore,
    {
        let users = valid_user_ids(users);
        match track_users(&self.runtime, self.inner(), &users) {
            Ok(()) => Ok(()),
            Err(e) => Err(CryptoStoreError::CryptoStore(e)),
        }
    }

    /// Whether a user is tracked: whether the user is among those that the
    /// machine tracks.
    pub fn is_user_tracked(&self, user_id: &str) -> (r: Result<bool, CryptoStoreError>)
        ensures
            !user_id_valid(user_id@) ==> refuses_user(r, user_id@),
            user_id_valid(user_id@) && r is Err ==> r->Err_0 is CryptoStore,
    {
        match parse_user_id(user_id) {
            Ok(()) => {},
            Err(e) => { return Err(e); },
        }
        match tracked_users(&self.runtime, self.inner()) {
            Ok(users) => Ok(is_listed(&users, user_id)),
            Err(e) => Err(CryptoStoreError::CryptoStore(e)),
        }
    }
}

} // verus!
