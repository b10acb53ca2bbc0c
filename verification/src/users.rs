//! Cross-signing identities of users.

use vstd::prelude::*;
use matrix_sdk_crypto::CryptoStoreError as InnerStoreError;
use matrix_sdk_crypto::OwnUserIdentity;
use matrix_sdk_crypto::UserIdentities;
use matrix_sdk_crypto::UserIdentity as OtherUserIdentity;
use tokio::runtime::Runtime;
use crate::error::CryptoStoreError;
use crate::identifiers::user_id_valid;
use crate::json::is_json;

verus! {

#[verifier::external_type_specification]
#[verifier::external_body]
pub struct ExOwnUserIdentity(OwnUserIdentity);

#[verifier::external_type_specification]
#[verifier::external_body]
pub struct ExUserIdentities(UserIdentities);

#[verifier::external_type_specification]
#[verifier::external_body]
pub struct ExOtherUserIdentity(OtherUserIdentity);

/// The cross-signing identity of a user: our own, or that of another user.
pub enum UserIdentity {
    /// Our own identity.
    Own {
        /// Our user id.
        user_id: String,
        /// Whether our identity signed the device we run on.
        trusts_our_own_device: bool,
        /// The public master key, as JSON.
        master_key: String,
        /// The public user-signing key, as JSON.
        user_signing_key: String,
        /// The public self-signing key, as JSON.
        self_signing_key: String,
    },
    /// The identity of another user.
    Other {
        /// The id of the user.
        user_id: String,
        /// The public master key, as JSON.
        master_key: String,
        /// The public self-signing key, as JSON.
        self_signing_key: String,
    },
}

/// An identity of `matrix_sdk_crypto`, by whose it is.
pub(crate) enum Identity {
    Own(OwnUserIdentity),
    Other(OtherUserIdentity),
}

/// Reads the variant of a `matrix_sdk_crypto::UserIdentities`.
#[verifier::external_body]
pub(crate) fn identity_of(identities: UserIdentities) -> Identity {
    match identities {
        UserIdentities::Own(i) => Identity::Own(i),
        UserIdentities::Other(i) => Identity::Other(i),
    }
}

/// Runs `OwnUserIdentity::trusts_our_own_device` to completion.
#[verifier::external_body]
pub(crate) fn own_trusts_device(
    runtime: &Runtime,
    identity: &OwnUserIdentity,
) -> Result<bool, InnerStoreError> {
    runtime.block_on(identity.trusts_our_own_device())
}

/// Reads an `OwnUserIdentity` through `user_id`, `master_key`,
/// `user_signing_key` and `self_signing_key`, and writes the keys as JSON
/// with `serde_json::to_string`: user id, master, user-signing,
/// self-signing.  Trusted: the user id is the text of a `UserId`.
#[verifier::external_body]
pub(crate) fn own_identity_keys(identity: &OwnUserIdentity) -> (r: Result<
    (String, String, String, String),
    serde_json::Error,
>)
    ensures
        r is Ok ==> user_id_valid(r->Ok_0.0@) && is_json(r->Ok_0.1@) && is_json(r->Ok_0.2@)
            && is_json(r->Ok_0.3@),
{
    let master = serde_json::to_string(identity.master_key().as_ref())?;
    let user_signing = serde_json::to_string(identity.user_signing_key().as_ref())?;
    let self_signing = serde_json::to_string(identity.self_signing_key().as_ref())?;
    Ok((identity.user_id().to_string(), master, user_signing, self_signing))
}

/// Reads a `UserIdentity` through `user_id`, `master_key` and
/// `self_signing_key`, and writes the keys as JSON with
/// `serde_json::to_string`: user id, master, self-signing.  Trusted: the
/// user id is the text of a `UserId`.
#[verifier::external_body]
pub(crate) fn other_identity_keys(identity: &OtherUserIdentity) -> (r: Result<
    (String, String, String),
    serde_json::Error,
>)
    ensures
        r is Ok ==> user_id_valid(r->Ok_0.0@) && is_json(r->Ok_0.1@) && is_json(r->Ok_0.2@),
{
    let master = serde_json::to_string(identity.master_key().as_ref())?;
    let self_signing = serde_json::to_string(identity.self_signing_key().as_ref())?;
    Ok((identity.user_id().to_string(), master, self_signing))
}

impl UserIdentity {
    /// Whether the identity is well formed: the user is a user identifier,
    /// and each key is JSON.
    pub open spec fn well_formed(self) -> bool {
        match self {
            UserIdentity::Own { user_id, master_key, user_signing_key, self_signing_key, .. } => {
                &&& user_id_valid(user_id@)
                &&& is_json(master_key@)
                &&& is_json(user_signing_key@)
                &&& is_json(self_signing_key@)
            },
            UserIdentity::Other { user_id, master_key, self_signing_key } => {
                &&& user_id_valid(user_id@)
                &&& is_json(master_key@)
                &&& is_json(self_signing_key@)
            },
        }
    }

    /// Our own identity, of what the store answered when asked whether the
    /// identity signed this device, and of the user id and the three keys
    /// as they were written: master, user-signing, self-signing.  A failure
    /// of the store comes first, as `CryptoStore`; then one of the writing,
    /// as `Serialization`.
    pub fn own_of(
        trusts: Result<bool, InnerStoreError>,
        keys: Result<(String, String, String, String), serde_json::Error>,
    ) -> (r: Result<UserIdentity, CryptoStoreError>)
        ensures
            trusts is Err ==> (r matches Err(CryptoStoreError::CryptoStore(e)) && e
                == trusts->Err_0),
            trusts is Ok && keys is Err ==> (r matches Err(CryptoStoreError::Serialization(e))
                && e == keys->Err_0),
            trusts is Ok && keys is Ok ==> r is Ok && r->Ok_0 == (UserIdentity::Own {
                user_id: keys->Ok_0.0,
                trusts_our_own_device: trusts->Ok_0,
                master_key: keys->Ok_0.1,
                user_signing_key: keys->Ok_0.2,
                self_signing_key: keys->Ok_0.3,
            }),
    {
        let trusts_our_own_device = match trusts {
            Ok(t) => t,
            Err(e) => { return Err(CryptoStoreError::CryptoStore(e)); },
        };
        match keys {
            Ok((user_id, master_key, user_signing_key, self_signing_key)) => Ok(
                UserIdentity::Own {
                    user_id,
                    trusts_our_own_device,
                    master_key,
                    user_signing_key,
                    self_signing_key,
                },
            ),
            Err(e) => Err(CryptoStoreError::Serialization(e)),
        }
    }

    /// The identity of another user, of the user id and the two keys as
    /// they were written: master, self-signing.  A failure of the writing
    /// comes back as `Serialization`.
    pub fn other_of(keys: Result<(String, String, String), serde_json::Error>) -> (r: Result<
        UserIdentity,
        CryptoStoreError,
    >)
        ensures
            keys is Err ==> (r matches Err(CryptoStoreError::Serialization(e)) && e
                == keys->Err_0),
            keys is Ok ==> r is Ok && r->Ok_0 == (UserIdentity::Other {
                user_id: keys->Ok_0.0,
                master_key: keys->Ok_0.1,
                self_signing_key: keys->Ok_0.2,
            }),
    {
        match keys {
            Ok((user_id, master_key, self_signing_key)) => Ok(
                UserIdentity::Other { user_id, master_key, self_signing_key },
            ),
            Err(e) => Err(CryptoStoreError::Serialization(e)),
        }
    }

    /// The plain form of our own identity: `own_of`, of what the store
    /// answers and of the keys as they are read.
    pub(crate) fn from_own(runtime: &Runtime, identity: &OwnUserIdentity) -> (r: Result<
        UserIdentity,
        CryptoStoreError,
    >)
        ensures
            r is Ok ==> r->Ok_0 is Own && r->Ok_0.well_formed(),
            r is Err ==> r->Err_0 is CryptoStore || r->Err_0 is Serialization,
    {
        UserIdentity::own_of(own_trusts_device(runtime, identity), own_identity_keys(identity))
    }

    /// The plain form of another user's identity: `other_of`, of the keys
    /// as they are read.
    pub(crate) fn from_other(identity: &OtherUserIdentity) -> (r: Result<UserIdentity, CryptoStoreError>)
        ensures
            r is Ok ==> r->Ok_0 is Other && r->Ok_0.well_formed(),
            r is Err ==> r->Err_0 is Serialization,
    {
        UserIdentity::other_of(other_identity_keys(identity))
    }

    /// The plain form of an identity, whosever it is.
    pub(crate) fn from_identities(runtime: &Runtime, identities: UserIdentities) -> (r: Result<
        UserIdentity,
        CryptoStoreError,
    >)
        ensures
            r is Ok ==> r->Ok_0.well_formed(),
            r is Err ==> r->Err_0 is CryptoStore || r->Err_0 is Serialization,
    {
        match identity_of(identities) {
            Identity::Own(i) => UserIdentity::from_own(runtime, &i),
            Identity::Other(i) => UserIdentity::from_other(&i),
        }
    }
}

} // verus!
