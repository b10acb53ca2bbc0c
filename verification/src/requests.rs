//! The requests that the state machine asks its host to send, and what the
//! host reports back.
//!
//! A request leaves the machine as plain text: its identifier, and its body
//! as the JSON that the endpoint expects.  The host sends it, and hands the
//! response body back together with the kind of request it answers.

use vstd::prelude::*;
use vstd::string::StringExecFns;
use std::collections::HashMap;
use matrix_sdk_crypto::CrossSigningBootstrapRequests;
use matrix_sdk_crypto::KeysBackupRequest;
use matrix_sdk_crypto::KeysQueryRequest;
use matrix_sdk_crypto::OutgoingRequest;
use matrix_sdk_crypto::OutgoingRequests;
use matrix_sdk_crypto::OutgoingVerificationRequest as SdkVerificationRequest;
use matrix_sdk_crypto::RoomMessageRequest;
use matrix_sdk_crypto::ToDeviceRequest;
use matrix_sdk_crypto::UploadSigningKeysRequest as SdkUploadSigningKeysRequest;
use ruma::api::client::keys::claim_keys::v3::Request as KeysClaimRequest;
use ruma::api::client::keys::upload_keys::v3::Request as KeysUploadRequest;
use ruma::api::client::keys::upload_signatures::v3::Request as SignaturesRequest;
use ruma::events::EventContent;
use crate::identifiers::all_user_ids;
use crate::identifiers::room_id_valid;
use crate::json::is_json;
use crate::json::check_json;
use crate::json::json_error;
use crate::types::count_as_i64;
use crate::identifiers::texts;
use crate::identifiers::valid_user_ids;
use crate::identifiers::valid_user_texts;

verus! {

#[verifier::external_type_specification]
#[verifier::external_body]
pub struct ExOutgoingRequest(OutgoingRequest);

#[verifier::external_type_specification]
#[verifier::external_body]
pub struct ExSdkVerificationRequest(SdkVerificationRequest);

#[verifier::external_type_specification]
#[verifier::external_body]
pub struct ExToDeviceRequest(ToDeviceRequest);

#[verifier::external_type_specification]
#[verifier::external_body]
pub struct ExRoomMessageRequest(RoomMessageRequest);

#[verifier::external_type_specification]
#[verifier::external_body]
pub struct ExKeysQueryRequest(KeysQueryRequest);

#[verifier::external_type_specification]
#[verifier::external_body]
pub struct ExKeysBackupRequest(KeysBackupRequest);

#[verifier::external_type_specification]
#[verifier::external_body]
pub struct ExKeysUploadRequest(KeysUploadRequest);

#[verifier::external_type_specification]
#[verifier::external_body]
pub struct ExKeysClaimRequest(KeysClaimRequest);

#[verifier::external_type_specification]
#[verifier::external_body]
pub struct ExSignaturesRequest(SignaturesRequest);

#[verifier::external_type_specification]
#[verifier::external_body]
pub struct ExSdkUploadSigningKeysRequest(SdkUploadSigningKeysRequest);

#[verifier::external_type_specification]
#[verifier::external_body]
pub struct ExCrossSigningBootstrapRequests(CrossSigningBootstrapRequests);

/// A request to upload signatures of devices and identities.
pub struct SignatureUploadRequest {
    /// The signed keys, as JSON.
    pub body: String,
}

/// A request to publish our cross-signing keys.
pub struct UploadSigningKeysRequest {
    /// The public master key, as JSON.
    pub master_key: String,
    /// The public self-signing key, as JSON.
    pub self_signing_key: String,
    /// The public user-signing key, as JSON.
    pub user_signing_key: String,
}

/// What has to be sent to set up cross-signing, in the order of the fields.
pub struct BootstrapCrossSigningResult {
    /// Device keys that have to be uploaded first, where the device has not
    /// published any yet.  Its response is reported back like that of any
    /// other request.
    pub upload_keys_request: Option<Request>,
    /// The cross-signing keys themselves.
    pub upload_signing_keys_request: UploadSigningKeysRequest,
    /// The signatures of the new keys.
    pub signature_request: SignatureUploadRequest,
}

/// A message of an interactive verification that has to be sent.
pub enum OutgoingVerificationRequest {
    /// Sent straight to devices.
    ToDevice {
        /// The identifier of the request.
        request_id: String,
        /// The type of the event.
        event_type: String,
        /// The messages by user and device, as JSON.
        body: String,
    },
    /// Sent as an event of a room.
    InRoom {
        /// The identifier of the request.
        request_id: String,
        /// The room to send to.
        room_id: String,
        /// The type of the event.
        event_type: String,
        /// The content of the event, as JSON.
        content: String,
    },
}

/// A request that waits to be sent to the homeserver.
#[derive(Debug)]
pub enum Request {
    /// Messages for devices.
    ToDevice {
        /// The identifier of the request.
        request_id: String,
        /// The type of the event.
        event_type: String,
        /// The messages by user and device, as JSON.
        body: String,
    },
    /// An upload of device and one-time keys.
    KeysUpload {
        /// The identifier of the request.
        request_id: String,
        /// The keys, as JSON.
        body: String,
    },
    /// A query for the devices and identities of users.
    KeysQuery {
        /// The identifier of the request.
        request_id: String,
        /// The users asked about.
        users: Vec<String>,
    },
    /// A claim of one-time keys.
    KeysClaim {
        /// The identifier of the request.
        request_id: String,
        /// The key algorithm wanted, by user and device.
        one_time_keys: HashMap<String, HashMap<String, String>>,
    },
    /// An event for a room.
    RoomMessage {
        /// The identifier of the request.
        request_id: String,
        /// The room to send to.
        room_id: String,
        /// The type of the event.
        event_type: String,
        /// The content of the event, as JSON.
        content: String,
    },
    /// An upload of signatures.
    SignatureUpload {
        /// The identifier of the request.
        request_id: String,
        /// The signed keys, as JSON.
        body: String,
    },
    /// An upload of encrypted room keys to the backup.
    KeysBackup {
        /// The identifier of the request.
        request_id: String,
        /// The backup version that the keys are for.
        version: String,
        /// The encrypted keys by room, as JSON.
        rooms: String,
    },
}

/// The kind of request that a response answers.
#[derive(Clone, Copy, Debug, PartialEq, Eq, Structural)]
pub enum RequestType {
    /// Answers a `Request::KeysQuery`.
    KeysQuery,
    /// Answers a `Request::KeysClaim`.
    KeysClaim,
    /// Answers a `Request::KeysUpload`.
    KeysUpload,
    /// Answers a `Request::ToDevice`.
    ToDevice,
    /// Answers a `Request::SignatureUpload`.
    SignatureUpload,
    /// Answers a `Request::KeysBackup`.
    KeysBackup,
}

/// The users whose device lists a sync reports as changed or gone.
pub struct DeviceLists {
    /// Users whose devices changed.
    pub changed: Vec<String>,
    /// Users with whom no encrypted room is shared any more.
    pub left: Vec<String>,
}

/// What an import of room keys did.
pub struct KeysImportResult {
    /// The number of room keys that were imported.
    pub imported: i64,
    /// The number of room keys that the export held.
    pub total: i64,
    /// The imported sessions: by room, then by sender key, the session ids.
    pub keys: HashMap<String, HashMap<String, Vec<String>>>,
}

/// What a pending request carries, by kind, as it is read from the machine.
pub enum PendingKind {
    /// An upload of device and one-time keys.
    KeysUpload {
        /// The keys, as JSON.
        body: String,
    },
    /// A query for the devices and identities of users.
    KeysQuery {
        /// The users asked about.
        users: Vec<String>,
    },
    /// A claim of one-time keys.
    KeysClaim {
        /// The key algorithm wanted, by user and device.
        one_time_keys: HashMap<String, HashMap<String, String>>,
    },
    /// Messages for devices.
    ToDevice {
        /// The transaction of the messages.
        transaction_id: String,
        /// The type of the event.
        event_type: String,
        /// The messages by user and device, as JSON.
        body: String,
    },
    /// An upload of signatures.
    SignatureUpload {
        /// The signed keys, as JSON.
        body: String,
    },
    /// An event for a room.
    RoomMessage {
        /// The transaction of the event.
        transaction_id: String,
        /// The room to send to.
        room_id: String,
        /// The type of the event.
        event_type: String,
        /// The content of the event, as JSON.
        content: String,
    },
    /// An upload of encrypted room keys to the backup.
    KeysBackup {
        /// The backup version that the keys are for.
        version: String,
        /// The encrypted keys by room, as JSON.
        rooms: String,
    },
}

/// A request as the machine holds it: the id under which it is pending, and
/// what it carries.
pub struct Pending {
    /// The id under which the machine holds the request.
    pub request_id: String,
    /// What the request carries.
    pub kind: PendingKind,
}

/// The body of a key upload: a JSON object of the device keys, the one-time
/// keys and the fallback keys, in this order and under these names.
pub open spec fn upload_body_text(
    device_keys: Seq<char>,
    one_time_keys: Seq<char>,
    fallback_keys: Seq<char>,
) -> Seq<char> {
    "{\"device_keys\":"@ + device_keys + ",\"one_time_keys\":"@ + one_time_keys
        + ",\"fallback_keys\":"@ + fallback_keys + "}"@
}

/// Writes the body of a key upload, of its three parts as JSON.
pub fn upload_body(device_keys: &str, one_time_keys: &str, fallback_keys: &str) -> (r: String)
    ensures
        r@ == upload_body_text(device_keys@, one_time_keys@, fallback_keys@),
{
    let mut text = String::new();
    text.append("{\"device_keys\":");
    text.append(device_keys);
    text.append(",\"one_time_keys\":");
    text.append(one_time_keys);
    text.append(",\"fallback_keys\":");
    text.append(fallback_keys);
    text.append("}");
    proof {
        assert(text@ =~= upload_body_text(device_keys@, one_time_keys@, fallback_keys@));
    }
    text
}

/// The request that goes out for a pending one.  Messages for devices and
/// events for rooms go out under their own transaction, every other kind
/// under the id of the pending request; what the request carries is kept as
/// it is, the users of a key query in their order.
pub open spec fn request_of(p: Pending) -> Request {
    match p.kind {
        PendingKind::KeysUpload { body } => Request::KeysUpload { request_id: p.request_id, body },
        PendingKind::KeysQuery { users } => Request::KeysQuery { request_id: p.request_id, users },
        PendingKind::KeysClaim { one_time_keys } => Request::KeysClaim {
            request_id: p.request_id,
            one_time_keys,
        },
        PendingKind::ToDevice { transaction_id, event_type, body } => Request::ToDevice {
            request_id: transaction_id,
            event_type,
            body,
        },
        PendingKind::SignatureUpload { body } => Request::SignatureUpload {
            request_id: p.request_id,
            body,
        },
        PendingKind::RoomMessage {
            transaction_id,
            room_id,
            event_type,
            content,
        } => Request::RoomMessage { request_id: transaction_id, room_id, event_type, content },
        PendingKind::KeysBackup { version, rooms } => Request::KeysBackup {
            request_id: p.request_id,
            version,
            rooms,
        },
    }
}

/// The requests that go out for a list of pending ones, one for one.
pub open spec fn requests_of(pending: Seq<Pending>) -> Seq<Request> {
    Seq::new(pending.len(), |i: int| request_of(pending[i]))
}

impl Pending {
    /// Whether the pending request is well formed: what it holds as JSON is
    /// JSON, the users of a key query are user identifiers, and the room of
    /// an event for a room is a room identifier.
    pub open spec fn well_formed(self) -> bool {
        request_of(self).well_formed()
    }

    /// Reads a pending request of the machine.  The body of a key upload is
    /// written by `upload_body`.  Fails only where a part cannot be written
    /// as JSON.
    pub(crate) fn read(request: &OutgoingRequest) -> (r: Result<Pending, serde_json::Error>)
        ensures
            r is Ok ==> r->Ok_0.well_formed(),
    {
        let request_id = request_id_of(request);
        let kind = match payload_of(request) {
            Payload::KeysUpload(u) => {
                let (device_keys, one_time_keys, fallback_keys) = match keys_upload_parts(u) {
                    Ok(parts) => parts,
                    Err(e) => { return Err(e); },
                };
                let body = upload_body(
                    device_keys.as_str(),
                    one_time_keys.as_str(),
                    fallback_keys.as_str(),
                );
                match check_json(body.as_str()) {
                    Ok(()) => {},
                    Err(e) => { return Err(e); },
                }
                PendingKind::KeysUpload { body }
            },
            Payload::KeysQuery(k) => PendingKind::KeysQuery { users: keys_query_users(k) },
            Payload::KeysClaim(c) => PendingKind::KeysClaim { one_time_keys: keys_claim_map(c) },
            Payload::ToDevice(t) => match to_device_parts(t) {
                Ok((transaction_id, event_type, body)) => PendingKind::ToDevice {
                    transaction_id,
                    event_type,
                    body,
                },
                Err(e) => { return Err(e); },
            },
            Payload::SignatureUpload(s) => match signed_keys_json(s) {
                Ok(body) => PendingKind::SignatureUpload { body },
                Err(e) => { return Err(e); },
            },
            Payload::RoomMessage(m) => match room_message_parts(m) {
                Ok((transaction_id, room_id, event_type, content)) => PendingKind::RoomMessage {
                    transaction_id,
                    room_id,
                    event_type,
                    content,
                },
                Err(e) => { return Err(e); },
            },
            Payload::KeysBackup(b) => match keys_backup_parts(b) {
                Ok((version, rooms)) => PendingKind::KeysBackup { version, rooms },
                Err(e) => { return Err(e); },
            },
        };
        Ok(Pending { request_id, kind })
    }

    /// Reads a list of pending requests of the machine, in the order of the
    /// list; the first that cannot be written as JSON ends it.
    pub(crate) fn read_list(requests: &Vec<OutgoingRequest>) -> (r: Result<
        Vec<Pending>,
        serde_json::Error,
    >)
        ensures
            r is Ok ==> r->Ok_0@.len() == requests@.len(),
            r is Ok ==> all_well_formed(requests_of(r->Ok_0@)),
    {
        let mut out: Vec<Pending> = Vec::new();
        let mut i: usize = 0;
        while i < requests.len()
            invariant
                0 <= i <= requests.len(),
                out@.len() == i,
                forall|k: int| 0 <= k < out@.len() ==> (#[trigger] out@[k]).well_formed(),
            decreases requests.len() - i,
        {
            match Pending::read(&requests[i]) {
                Ok(p) => out.push(p),
                Err(e) => { return Err(e); },
            }
            i += 1;
        }
        Ok(out)
    }
}

/// The payload of an outgoing request, by kind.
pub(crate) enum Payload<'a> {
    KeysUpload(&'a KeysUploadRequest),
    KeysQuery(&'a KeysQueryRequest),
    KeysClaim(&'a KeysClaimRequest),
    ToDevice(&'a ToDeviceRequest),
    SignatureUpload(&'a SignaturesRequest),
    RoomMessage(&'a RoomMessageRequest),
    KeysBackup(&'a KeysBackupRequest),
}

/// Reads `OutgoingRequest::request`, variant by variant.  Trusted to hand on
/// the payload it finds.
#[verifier::external_body]
pub(crate) fn payload_of<'a>(request: &'a OutgoingRequest) -> Payload<'a> {
    match request.request() {
        OutgoingRequests::KeysUpload(u) => Payload::KeysUpload(u),
        OutgoingRequests::KeysQuery(k) => Payload::KeysQuery(k),
        OutgoingRequests::KeysClaim(c) => Payload::KeysClaim(c),
        OutgoingRequests::ToDeviceRequest(t) => Payload::ToDevice(t),
        OutgoingRequests::SignatureUpload(s) => Payload::SignatureUpload(s),
        OutgoingRequests::RoomMessage(m) => Payload::RoomMessage(m),
        OutgoingRequests::KeysBackup(b) => Payload::KeysBackup(b),
    }
}

/// Reads `OutgoingRequest::request_id` as text.
#[verifier::external_body]
pub(crate) fn request_id_of(request: &OutgoingRequest) -> String {
    request.request_id().to_string()
}

/// Writes the three fields of an `upload_keys::v3::Request` as JSON, each
/// with `serde_json::to_string`: the device keys, the one-time keys and the
/// fallback keys.
#[verifier::external_body]
pub(crate) fn keys_upload_parts(upload: &KeysUploadRequest) -> (r: Result<
    (String, String, String),
    serde_json::Error,
>)
    ensures
        r is Ok ==> is_json(r->Ok_0.0@) && is_json(r->Ok_0.1@) && is_json(r->Ok_0.2@),
{
    let device_keys = serde_json::to_string(&upload.device_keys)?;
    let one_time_keys = serde_json::to_string(&upload.one_time_keys)?;
    let fallback_keys = serde_json::to_string(&upload.fallback_keys)?;
    Ok((device_keys, one_time_keys, fallback_keys))
}

/// Reads the users of `KeysQueryRequest::device_keys` as text.  Trusted:
/// each is a user identifier, being the text of a `UserId`.
#[verifier::external_body]
pub(crate) fn keys_query_users(query: &KeysQueryRequest) -> (r: Vec<String>)
    ensures
        all_user_ids(r@),
{
    query.device_keys.keys().map(|u| u.to_string()).collect()
}

/// Reads `claim_keys::v3::Request::one_time_keys` as text, entry by entry.
#[verifier::external_body]
pub(crate) fn keys_claim_map(claim: &KeysClaimRequest) -> HashMap<String, HashMap<String, String>> {
    claim
        .one_time_keys
        .iter()
        .map(|(u, d)| {
            (u.to_string(), d.iter().map(|(k, v)| (k.to_string(), v.to_string())).collect())
        })
        .collect()
}

/// Writes `upload_signatures::v3::Request::signed_keys` as JSON, with
/// `serde_json::to_string`.
#[verifier::external_body]
pub(crate) fn signed_keys_json(upload: &SignaturesRequest) -> (r: Result<String, serde_json::Error>)
    ensures
        r is Ok ==> is_json(r->Ok_0@),
{
    serde_json::to_string(&upload.signed_keys)
}

/// Reads a `ToDeviceRequest`: transaction id, event type, and the messages
/// as JSON.
#[verifier::external_body]
pub(crate) fn to_device_parts(request: &ToDeviceRequest) -> (r: Result<
    (String, String, String),
    serde_json::Error,
>)
    ensures
        r is Ok ==> is_json(r->Ok_0.2@),
{
    let body = serde_json::to_string(&request.messages)?;
    Ok((request.txn_id.to_string(), request.event_type.to_string(), body))
}

/// Reads a `RoomMessageRequest`: transaction id, room, event type, and the
/// content as JSON.  Trusted: the room is a room identifier, being the text
/// of a `RoomId`.
#[verifier::external_body]
pub(crate) fn room_message_parts(request: &RoomMessageRequest) -> (r: Result<
    (String, String, String, String),
    serde_json::Error,
>)
    ensures
        r is Ok ==> room_id_valid(r->Ok_0.1@) && is_json(r->Ok_0.3@),
{
    let content = serde_json::to_string(&request.content)?;
    let event_type = request.content.event_type().to_string();
    Ok((request.txn_id.to_string(), request.room_id.to_string(), event_type, content))
}

/// Reads a `KeysBackupRequest`: the version, and the rooms as JSON.
#[verifier::external_body]
pub(crate) fn keys_backup_parts(request: &KeysBackupRequest) -> (r: Result<
    (String, String),
    serde_json::Error,
>)
    ensures
        r is Ok ==> is_json(r->Ok_0.1@),
{
    let rooms = serde_json::to_string(&request.rooms)?;
    Ok((request.version.clone(), rooms))
}

/// The request inside an `OutgoingVerificationRequest`, by kind.
pub(crate) enum VerificationPayload<'a> {
    ToDevice(&'a ToDeviceRequest),
    InRoom(&'a RoomMessageRequest),
}

/// Reads the variant of a `matrix_sdk_crypto::OutgoingVerificationRequest`.
#[verifier::external_body]
pub(crate) fn verification_payload_of<'a>(
    request: &'a SdkVerificationRequest,
) -> VerificationPayload<'a> {
    match request {
        SdkVerificationRequest::ToDevice(t) => VerificationPayload::ToDevice(t),
        SdkVerificationRequest::InRoom(r) => VerificationPayload::InRoom(r),
    }
}

/// Writes each present key of an `UploadSigningKeysRequest` as JSON: master,
/// self-signing, user-signing.
#[verifier::external_body]
pub(crate) fn signing_keys_json(request: &SdkUploadSigningKeysRequest) -> (r: Result<
    (Option<String>, Option<String>, Option<String>),
    serde_json::Error,
>)
    ensures
        r is Ok ==> json_or_none(r->Ok_0.0) && json_or_none(r->Ok_0.1) && json_or_none(r->Ok_0.2),
{
    let master = request.master_key.as_ref().map(serde_json::to_string).transpose()?;
    let self_signing = request.self_signing_key.as_ref().map(serde_json::to_string).transpose()?;
    let user_signing = request.user_signing_key.as_ref().map(serde_json::to_string).transpose()?;
    Ok((master, self_signing, user_signing))
}

/// Borrows the three requests of a `CrossSigningBootstrapRequests`.
#[verifier::external_body]
pub(crate) fn bootstrap_parts<'a>(
    requests: &'a CrossSigningBootstrapRequests,
) -> (Option<&'a OutgoingRequest>, &'a SdkUploadSigningKeysRequest, &'a SignaturesRequest) {
    (
        requests.upload_keys_req.as_ref(),
        &requests.upload_signing_keys_req,
        &requests.upload_signatures_req,
    )
}

/// Whether a text that may be absent is JSON where it is there.
pub open spec fn json_or_none(text: Option<String>) -> bool {
    text is Some ==> is_json(text->0@)
}

impl SignatureUploadRequest {
    /// Whether the body is JSON.
    pub open spec fn well_formed(self) -> bool {
        is_json(self.body@)
    }

    /// The plain form of a signature upload; fails only where the signed
    /// keys cannot be written as JSON.
    pub(crate) fn from_upload(upload: &SignaturesRequest) -> (r: Result<SignatureUploadRequest, serde_json::Error>)
        ensures
            r is Ok ==> r->Ok_0.well_formed(),
    {
        match signed_keys_json(upload) {
            Ok(body) => Ok(SignatureUploadRequest { body }),
            Err(e) => Err(e),
        }
    }
}

/// The three keys of an upload, where none is missing.
pub open spec fn complete_signing_keys(
    master: Option<String>,
    self_signing: Option<String>,
    user_signing: Option<String>,
) -> Option<UploadSigningKeysRequest> {
    if master is Some && self_signing is Some && user_signing is Some {
        Some(
            UploadSigningKeysRequest {
                master_key: master->0,
                self_signing_key: self_signing->0,
                user_signing_key: user_signing->0,
            },
        )
    } else {
        None
    }
}

impl UploadSigningKeysRequest {
    /// Whether each of the three keys is JSON.
    pub open spec fn well_formed(self) -> bool {
        is_json(self.master_key@) && is_json(self.self_signing_key@) && is_json(
            self.user_signing_key@,
        )
    }

    /// Puts the three public keys together: a request needs all of them.
    pub fn from_keys(
        master: Option<String>,
        self_signing: Option<String>,
        user_signing: Option<String>,
    ) -> (r: Option<UploadSigningKeysRequest>)
        ensures
            r == complete_signing_keys(master, self_signing, user_signing),
    {
        match (master, self_signing, user_signing) {
            (Some(master_key), Some(self_signing_key), Some(user_signing_key)) => Some(
                UploadSigningKeysRequest { master_key, self_signing_key, user_signing_key },
            ),
            _ => None,
        }
    }

    /// The plain form of an upload of cross-signing keys.  Fails where a key
    /// cannot be written as JSON, and where the request lacks one of the
    /// three.
    pub(crate) fn from_upload(upload: &SdkUploadSigningKeysRequest) -> (r: Result<
        UploadSigningKeysRequest,
        serde_json::Error,
    >)
        ensures
            r is Ok ==> r->Ok_0.well_formed(),
    {
        match signing_keys_json(upload) {
            Ok((master, self_signing, user_signing)) => {
                match UploadSigningKeysRequest::from_keys(master, self_signing, user_signing) {
                    Some(r) => Ok(r),
                    None => Err(json_error("the request lacks a cross-signing key")),
                }
            },
            Err(e) => Err(e),
        }
    }
}

impl BootstrapCrossSigningResult {
    /// Whether each of the requests is well formed.
    pub open spec fn well_formed(self) -> bool {
        &&& self.upload_keys_request is Some ==> self.upload_keys_request->0.well_formed()
        &&& self.upload_signing_keys_request.well_formed()
        &&& self.signature_request.well_formed()
    }

    /// The plain form of what cross-signing bootstrap asks to send.
    pub(crate) fn from_requests(requests: &CrossSigningBootstrapRequests) -> (r: Result<
        BootstrapCrossSigningResult,
        serde_json::Error,
    >)
        ensures
            r is Ok ==> r->Ok_0.well_formed(),
    {
        let (upload_keys, signing_keys, signatures) = bootstrap_parts(requests);
        let upload_keys_request = match upload_keys {
            Some(r) => match Request::from_outgoing(r) {
                Ok(r) => Some(r),
                Err(e) => { return Err(e); },
            },
            None => None,
        };
        let upload_signing_keys_request = match UploadSigningKeysRequest::from_upload(signing_keys) {
            Ok(r) => r,
            Err(e) => { return Err(e); },
        };
        let signature_request = match SignatureUploadRequest::from_upload(signatures) {
            Ok(r) => r,
            Err(e) => { return Err(e); },
        };
        Ok(
            BootstrapCrossSigningResult {
                upload_keys_request,
                upload_signing_keys_request,
                signature_request,
            },
        )
    }
}

impl OutgoingVerificationRequest {
    /// Whether the message is well formed: its body or content is JSON, and
    /// the room of a message for a room is a room identifier.
    pub open spec fn well_formed(self) -> bool {
        match self {
            OutgoingVerificationRequest::ToDevice { body, .. } => is_json(body@),
            OutgoingVerificationRequest::InRoom { room_id, content, .. } => room_id_valid(
                room_id@,
            ) && is_json(content@),
        }
    }

    /// The id under which the message goes out.
    pub open spec fn id(self) -> Seq<char> {
        match self {
            OutgoingVerificationRequest::ToDevice { request_id, .. } => request_id@,
            OutgoingVerificationRequest::InRoom { request_id, .. } => request_id@,
        }
    }

    /// The id under which the message goes out, and under which its
    /// response is reported back.
    pub fn request_id(&self) -> (r: &String)
        ensures
            r@ == self.id(),
    {
        match self {
            OutgoingVerificationRequest::ToDevice { request_id, .. } => request_id,
            OutgoingVerificationRequest::InRoom { request_id, .. } => request_id,
        }
    }

    /// The plain form of a to-device verification message.
    pub(crate) fn from_to_device(
        request: &ToDeviceRequest,
    ) -> (r: Result<OutgoingVerificationRequest, serde_json::Error>)
        ensures
            r is Ok ==> r->Ok_0 is ToDevice && r->Ok_0.well_formed(),
    {
        match to_device_parts(request) {
            Ok((request_id, event_type, body)) => Ok(
                OutgoingVerificationRequest::ToDevice { request_id, event_type, body },
            ),
            Err(e) => Err(e),
        }
    }

    /// The plain form of an in-room verification message.
    pub(crate) fn from_room_message(
        request: &RoomMessageRequest,
    ) -> (r: Result<OutgoingVerificationRequest, serde_json::Error>)
        ensures
            r is Ok ==> r->Ok_0 is InRoom && r->Ok_0.well_formed(),
    {
        match room_message_parts(request) {
            Ok((request_id, room_id, event_type, content)) => Ok(
                OutgoingVerificationRequest::InRoom { request_id, room_id, event_type, content },
            ),
            Err(e) => Err(e),
        }
    }

    /// The plain form of a verification message, whichever way it travels.
    pub(crate) fn from_verification(request: &SdkVerificationRequest) -> (r: Result<
        OutgoingVerificationRequest,
        serde_json::Error,
    >)
        ensures
            r is Ok ==> r->Ok_0.well_formed(),
    {
        match verification_payload_of(request) {
            VerificationPayload::ToDevice(t) => OutgoingVerificationRequest::from_to_device(t),
            VerificationPayload::InRoom(r) => OutgoingVerificationRequest::from_room_message(r),
        }
    }
}

impl Request {
    /// Whether the request is well formed: what it holds as JSON is JSON,
    /// the users of a key query are user identifiers, and the room of an
    /// event for a room is a room identifier.
    pub open spec fn well_formed(self) -> bool {
        match self {
            Request::ToDevice { body, .. } => is_json(body@),
            Request::KeysUpload { body, .. } => is_json(body@),
            Request::KeysQuery { users, .. } => all_user_ids(users@),
            Request::KeysClaim { .. } => true,
            Request::RoomMessage { room_id, content, .. } => room_id_valid(room_id@) && is_json(
                content@,
            ),
            Request::SignatureUpload { body, .. } => is_json(body@),
            Request::KeysBackup { rooms, .. } => is_json(rooms@),
        }
    }

    /// The id under which the request goes out.
    pub open spec fn id(self) -> Seq<char> {
        match self {
            Request::ToDevice { request_id, .. } => request_id@,
            Request::KeysUpload { request_id, .. } => request_id@,
            Request::KeysQuery { request_id, .. } => request_id@,
            Request::KeysClaim { request_id, .. } => request_id@,
            Request::RoomMessage { request_id, .. } => request_id@,
            Request::SignatureUpload { request_id, .. } => request_id@,
            Request::KeysBackup { request_id, .. } => request_id@,
        }
    }

    /// The id under which the request goes out, and under which its response
    /// is reported back.
    pub fn request_id(&self) -> (r: &String)
        ensures
            r@ == self.id(),
    {
        match self {
            Request::ToDevice { request_id, .. } => request_id,
            Request::KeysUpload { request_id, .. } => request_id,
            Request::KeysQuery { request_id, .. } => request_id,
            Request::KeysClaim { request_id, .. } => request_id,
            Request::RoomMessage { request_id, .. } => request_id,
            Request::SignatureUpload { request_id, .. } => request_id,
            Request::KeysBackup { request_id, .. } => request_id,
        }
    }

    /// The plain form of messages for devices.
    pub(crate) fn from_to_device(request: &ToDeviceRequest) -> (r: Result<Request, serde_json::Error>)
        ensures
            r is Ok ==> r->Ok_0 is ToDevice && r->Ok_0.well_formed(),
    {
        match to_device_parts(request) {
            Ok((request_id, event_type, body)) => Ok(
                Request::ToDevice { request_id, event_type, body },
            ),
            Err(e) => Err(e),
        }
    }

    /// The plain form of an event for a room.
    pub(crate) fn from_room_message(request: &RoomMessageRequest) -> (r: Result<Request, serde_json::Error>)
        ensures
            r is Ok ==> r->Ok_0 is RoomMessage && r->Ok_0.well_formed(),
    {
        match room_message_parts(request) {
            Ok((request_id, room_id, event_type, content)) => Ok(
                Request::RoomMessage { request_id, room_id, event_type, content },
            ),
            Err(e) => Err(e),
        }
    }

    /// The plain form of a claim of one-time keys that goes out under
    /// `request_id`.
    pub(crate) fn from_keys_claim(request_id: String, claim: &KeysClaimRequest) -> (r: Request)
        ensures
            r matches Request::KeysClaim { request_id: id, .. } && id == request_id,
            r.well_formed(),
    {
        Request::KeysClaim { request_id, one_time_keys: keys_claim_map(claim) }
    }

    /// The request that goes out for a pending one: `request_of`.
    pub fn from_pending(p: Pending) -> (r: Request)
        ensures
            r == request_of(p),
    {
        let request_id = p.request_id;
        match p.kind {
            PendingKind::KeysUpload { body } => Request::KeysUpload { request_id, body },
            PendingKind::KeysQuery { users } => Request::KeysQuery { request_id, users },
            PendingKind::KeysClaim { one_time_keys } => Request::KeysClaim {
                request_id,
                one_time_keys,
            },
            PendingKind::ToDevice { transaction_id, event_type, body } => Request::ToDevice {
                request_id: transaction_id,
                event_type,
                body,
            },
            PendingKind::SignatureUpload { body } => Request::SignatureUpload { request_id, body },
            PendingKind::RoomMessage {
                transaction_id,
                room_id,
                event_type,
                content,
            } => Request::RoomMessage { request_id: transaction_id, room_id, event_type, content },
            PendingKind::KeysBackup { version, rooms } => Request::KeysBackup {
                request_id,
                version,
                rooms,
            },
        }
    }

    /// The requests that go out for a list of pending ones, one for one and
    /// in the order of the list.
    pub fn from_list(pending: Vec<Pending>) -> (r: Vec<Request>)
        ensures
            r@ == requests_of(pending@),
            r@.len() == pending@.len(),
            forall|i: int| 0 <= i < r@.len() ==> #[trigger] r@[i] == request_of(pending@[i]),
    {
        let ghost all = pending@;
        let mut rest = pending;
        let mut out: Vec<Request> = Vec::new();
        while rest.len() > 0
            invariant
                out@.len() + rest@.len() == all.len(),
                rest@ == all.skip(out@.len() as int),
                forall|i: int| 0 <= i < out@.len() ==> #[trigger] out@[i] == request_of(all[i]),
            decreases rest.len(),
        {
            let p = rest.remove(0);
            proof {
                assert(all.skip(out@.len() as int).remove(0) =~= all.skip(out@.len() as int + 1));
                assert(all.skip(out@.len() as int)[0] == all[out@.len() as int]);
            }
            out.push(Request::from_pending(p));
        }
        proof {
            assert(out@ =~= requests_of(all));
        }
        out
    }

    /// The plain form of a pending request of the machine: what is read of
    /// it, as the request that goes out for it.
    pub(crate) fn from_outgoing(request: &OutgoingRequest) -> (r: Result<Request, serde_json::Error>)
        ensures
            r is Ok ==> r->Ok_0.well_formed(),
    {
        match Pending::read(request) {
            Ok(p) => Ok(Request::from_pending(p)),
            Err(e) => Err(e),
        }
    }
}

/// The result of an import that the store reports with these counts.
pub open spec fn import_result(
    imported: usize,
    total: usize,
    keys: HashMap<String, HashMap<String, Vec<String>>>,
) -> KeysImportResult {
    KeysImportResult { imported: imported as i64, total: total as i64, keys }
}

impl KeysImportResult {
    /// The result of an import: the counts as signed numbers, and the
    /// sessions that were imported.
    pub fn from_counts(
        imported: usize,
        total: usize,
        keys: HashMap<String, HashMap<String, Vec<String>>>,
    ) -> (r: KeysImportResult)
        ensures
            r == import_result(imported, total, keys),
            imported <= i64::MAX ==> r.imported == imported,
            total <= i64::MAX ==> r.total == total,
    {
        KeysImportResult { imported: count_as_i64(imported), total: count_as_i64(total), keys }
    }
}

impl Request {
    /// The plain form of an upload to the backup that goes out under
    /// `request_id`.  Fails only where the keys cannot be written as JSON.
    pub(crate) fn from_keys_backup(request_id: String, backup: &KeysBackupRequest) -> (r: Result<
        Request,
        serde_json::Error,
    >)
        ensures
            r is Ok ==> (r->Ok_0 matches Request::KeysBackup { request_id: id, .. } && id
                == request_id),
            r is Ok ==> r->Ok_0.well_formed(),
    {
        match keys_backup_parts(backup) {
            Ok((version, rooms)) => Ok(Request::KeysBackup { request_id, version, rooms }),
            Err(e) => Err(e),
        }
    }
}

/// Whether every request of the list is well formed.
pub open spec fn all_well_formed(requests: Seq<Request>) -> bool {
    forall|k: int| 0 <= k < requests.len() ==> (#[trigger] requests[k]).well_formed()
}

/// Whether a request of the list goes out under `id`.
pub open spec fn has_id(requests: Seq<Request>, id: Seq<char>) -> bool {
    exists|k: int| 0 <= k < requests.len() && #[trigger] requests[k].id() == id
}

/// Whether no two requests of the list go out under one id.
pub open spec fn distinct_ids(requests: Seq<Request>) -> bool {
    forall|i: int, j: int|
        0 <= i < j < requests.len() ==> #[trigger] requests[i].id() != #[trigger] requests[j].id()
}

/// The list without the requests whose id an earlier request of the list
/// has: of each id the first request, in the order of the list.
pub open spec fn first_of_each_id(requests: Seq<Request>) -> Seq<Request>
    decreases requests.len(),
{
    if requests.len() == 0 {
        Seq::empty()
    } else {
        let before = first_of_each_id(requests.drop_last());
        if has_id(before, requests.last().id()) {
            before
        } else {
            before.push(requests.last())
        }
    }
}

/// What is kept of a list has every id of the list, and no other.
pub proof fn lemma_first_of_each_id_keeps_ids(requests: Seq<Request>, id: Seq<char>)
    ensures
        has_id(first_of_each_id(requests), id) <==> has_id(requests, id),
    decreases requests.len(),
{
    if requests.len() > 0 {
        let init = requests.drop_last();
        let before = first_of_each_id(init);
        let kept = first_of_each_id(requests);
        lemma_first_of_each_id_keeps_ids(init, id);
        lemma_first_of_each_id_keeps_ids(init, requests.last().id());
        if has_id(kept, id) {
            let k = choose|k: int| 0 <= k < kept.len() && #[trigger] kept[k].id() == id;
            if k < before.len() {
                assert(before[k].id() == id);
                let j = choose|j: int| 0 <= j < init.len() && #[trigger] init[j].id() == id;
                assert(requests[j].id() == id);
            } else {
                assert(requests[requests.len() - 1].id() == id);
            }
        }
        if has_id(requests, id) {
            let j = choose|j: int| 0 <= j < requests.len() && #[trigger] requests[j].id() == id;
            if j < init.len() {
                assert(init[j].id() == id);
                let k = choose|k: int| 0 <= k < before.len() && #[trigger] before[k].id() == id;
                assert(kept[k].id() == id);
            } else if has_id(before, requests.last().id()) {
                let k = choose|k: int|
                    0 <= k < before.len() && #[trigger] before[k].id() == requests.last().id();
                assert(kept[k].id() == id);
            } else {
                assert(kept[kept.len() - 1].id() == id);
            }
        }
    }
}

/// What is kept of a list is of the list: every request that is kept is
/// one of the requests that were there.
pub proof fn lemma_first_of_each_id_is_of_the_list(requests: Seq<Request>, k: int)
    requires
        0 <= k < first_of_each_id(requests).len(),
    ensures
        requests.contains(first_of_each_id(requests)[k]),
    decreases requests.len(),
{
    if requests.len() > 0 {
        let init = requests.drop_last();
        let before = first_of_each_id(init);
        if k < before.len() {
            lemma_first_of_each_id_is_of_the_list(init, k);
            let j = choose|j: int| 0 <= j < init.len() && init[j] == before[k];
            assert(requests[j] == before[k]);
        } else {
            assert(requests[requests.len() - 1] == first_of_each_id(requests)[k]);
        }
    }
}

/// What is kept of a list has no id twice.
pub proof fn lemma_first_of_each_id_is_distinct(requests: Seq<Request>)
    ensures
        distinct_ids(first_of_each_id(requests)),
    decreases requests.len(),
{
    if requests.len() > 0 {
        lemma_first_of_each_id_is_distinct(requests.drop_last());
        let before = first_of_each_id(requests.drop_last());
        let kept = first_of_each_id(requests);
        if !has_id(before, requests.last().id()) {
            assert forall|i: int, j: int| 0 <= i < j < kept.len() implies #[trigger] kept[i].id()
                != #[trigger] kept[j].id() by {
                if j == before.len() {
                    assert(before[i].id() != requests.last().id());
                } else {
                    assert(before[i].id() != before[j].id());
                }
            }
        }
    }
}

/// A list that has no id twice is kept as it is.
pub proof fn lemma_first_of_each_id_of_distinct(requests: Seq<Request>)
    requires
        distinct_ids(requests),
    ensures
        first_of_each_id(requests) == requests,
    decreases requests.len(),
{
    if requests.len() > 0 {
        let init = requests.drop_last();
        assert(distinct_ids(init)) by {
            assert forall|i: int, j: int| 0 <= i < j < init.len() implies #[trigger] init[i].id()
                != #[trigger] init[j].id() by {
                assert(requests[i].id() != requests[j].id());
            }
        }
        lemma_first_of_each_id_of_distinct(init);
        if has_id(init, requests.last().id()) {
            let k = choose|k: int|
                0 <= k < init.len() && #[trigger] init[k].id() == requests.last().id();
            assert(requests[k].id() != requests[requests.len() - 1].id());
        }
        assert(init.push(requests.last()) =~= requests);
    } else {
        assert(first_of_each_id(requests) =~= requests);
    }
}

/// Whether a request of the list goes out under `id`.
pub fn contains_id(requests: &Vec<Request>, id: &String) -> (r: bool)
    ensures
        r == has_id(requests@, id@),
{
    let mut i: usize = 0;
    while i < requests.len()
        invariant
            0 <= i <= requests.len(),
            forall|k: int| 0 <= k < i ==> #[trigger] requests@[k].id() != id@,
        decreases requests.len() - i,
    {
        let same: bool = *requests[i].request_id() == *id;
        if same {
            assert(requests@[i as int].id() == id@);
            return true;
        }
        i += 1;
    }
    false
}

/// Drops every request whose id an earlier request of the list has, so that
/// no id is left twice.  A list that has no id twice comes back as it is.
pub fn first_of_each(requests: Vec<Request>) -> (r: Vec<Request>)
    ensures
        r@ == first_of_each_id(requests@),
        distinct_ids(r@),
        distinct_ids(requests@) ==> r@ == requests@,
        forall|id: Seq<char>| has_id(r@, id) <==> has_id(requests@, id),
        forall|k: int| 0 <= k < r@.len() ==> requests@.contains(#[trigger] r@[k]),
        all_well_formed(requests@) ==> all_well_formed(r@),
{
    let ghost all = requests@;
    let mut rest = requests;
    let mut out: Vec<Request> = Vec::new();
    let ghost mut done: int = 0;
    while rest.len() > 0
        invariant
            0 <= done <= all.len(),
            rest@ == all.skip(done),
            out@ == first_of_each_id(all.take(done)),
        decreases rest.len(),
    {
        let request = rest.remove(0);
        proof {
            assert(all.take(done + 1).drop_last() =~= all.take(done));
            assert(all.take(done + 1).last() == all[done]);
            assert(all.skip(done).remove(0) =~= all.skip(done + 1));
        }
        if !contains_id(&out, request.request_id()) {
            out.push(request);
        }
        proof {
            done = done + 1;
        }
    }
    proof {
        assert(all.take(done) =~= all);
        lemma_first_of_each_id_is_distinct(all);
        if distinct_ids(all) {
            lemma_first_of_each_id_of_distinct(all);
        }
        assert forall|id: Seq<char>| has_id(out@, id) <==> has_id(all, id) by {
            lemma_first_of_each_id_keeps_ids(all, id);
        }
        assert forall|k: int| 0 <= k < out@.len() implies all.contains(#[trigger] out@[k]) by {
            lemma_first_of_each_id_is_of_the_list(all, k);
        }
        if all_well_formed(all) {
            assert forall|k: int| 0 <= k < out@.len() implies (#[trigger] out@[k]).well_formed() by {
                lemma_first_of_each_id_is_of_the_list(all, k);
                let j = choose|j: int| 0 <= j < all.len() && all[j] == out@[k];
                assert(all[j].well_formed());
            }
        }
    }
    out
}

impl DeviceLists {
    /// The lists as the machine takes them: every string that is no user
    /// identifier is dropped, the others keep their order.
    pub fn valid(self) -> (r: DeviceLists)
        ensures
            texts(r.changed@) == valid_user_texts(self.changed@),
            texts(r.left@) == valid_user_texts(self.left@),
            all_user_ids(r.changed@),
            all_user_ids(r.left@),
            r.changed@.len() <= self.changed@.len(),
            r.left@.len() <= self.left@.len(),
    {
        DeviceLists { changed: valid_user_ids(self.changed), left: valid_user_ids(self.left) }
    }
}

} // verus!
