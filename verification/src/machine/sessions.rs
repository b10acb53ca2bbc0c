//! Sessions, the queue of outgoing requests, and what a sync brings.

use vstd::prelude::*;
use vstd::string::StringExecFns;
use std::collections::BTreeMap;
use http::Response;
use js_int::UInt;
use matrix_sdk_common::deserialized_responses::AlgorithmInfo;
use matrix_sdk_common::deserialized_responses::TimelineEvent;
use matrix_sdk_crypto::store::CryptoStore;
use matrix_sdk_crypto::store::RoomKeyInfo;
use matrix_sdk_crypto::CryptoStoreError as InnerStoreError;
use matrix_sdk_crypto::EncryptionSettings;
use matrix_sdk_crypto::EncryptionSyncChanges;
use matrix_sdk_crypto::IncomingResponse as MachineResponse;
use matrix_sdk_crypto::MegolmError;
use matrix_sdk_crypto::OlmError;
use matrix_sdk_crypto::OlmMachine as InnerMachine;
use matrix_sdk_crypto::OutgoingRequest;
use matrix_sdk_crypto::ToDeviceRequest;
use ruma::api::client::backup::add_backup_keys::v3::Response as KeysBackupResponse;
use ruma::api::client::keys::claim_keys::v3::Request as KeysClaimRequest;
use ruma::api::client::keys::claim_keys::v3::Response as KeysClaimResponse;
use ruma::api::client::keys::get_keys::v3::Response as KeysQueryResponse;
use ruma::api::client::keys::upload_keys::v3::Response as KeysUploadResponse;
use ruma::api::client::keys::upload_signatures::v3::Response as SignatureUploadResponse;
use ruma::api::client::sync::sync_events::v3::ToDevice;
use ruma::api::client::sync::sync_events::DeviceLists as RumaDeviceLists;
use ruma::api::client::to_device::send_event_to_device::v3::Response as ToDeviceResponse;
use ruma::api::IncomingResponse;
use ruma::serde::Raw;
use ruma::DeviceKeyAlgorithm;
use tokio::runtime::Runtime;
use crate::error::CryptoStoreError;
use crate::error::DecryptionError;
use crate::identifiers::all_user_ids;
use crate::identifiers::check_room_id;
use crate::identifiers::room_id_valid;
use crate::identifiers::valid_user_ids;
use crate::json::check_json;
use crate::json::is_json;
use crate::json::json_error;
use crate::machine::provenance::chain_of;
use crate::machine::provenance::forwarding_chain;
use crate::machine::provenance::room_keys_of;
use crate::machine::KeyRequestPair;
use crate::machine::OlmMachine;
use crate::requests::all_well_formed;
use crate::requests::distinct_ids;
use crate::requests::first_of_each;
use crate::requests::Pending;
use crate::requests::DeviceLists;
use crate::requests::Request;
use crate::requests::RequestType;
use crate::types::DecryptedEvent;

verus! {

#[verifier::external_type_specification]
#[verifier::external_body]
pub struct ExKeysBackupResponse(KeysBackupResponse);

#[verifier::external_type_specification]
#[verifier::external_body]
pub struct ExKeysClaimResponse(KeysClaimResponse);

#[verifier::external_type_specification]
#[verifier::external_body]
pub struct ExKeysQueryResponse(KeysQueryResponse);

#[verifier::external_type_specification]
#[verifier::external_body]
pub struct ExKeysUploadResponse(KeysUploadResponse);

#[verifier::external_type_specification]
#[verifier::external_body]
pub struct ExSignatureUploadResponse(SignatureUploadResponse);

#[verifier::external_type_specification]
#[verifier::external_body]
pub struct ExToDeviceResponse(ToDeviceResponse);

#[verifier::external_type_specification]
#[verifier::external_body]
pub struct ExToDevice(ToDevice);

#[verifier::external_type_specification]
#[verifier::external_body]
pub struct ExRumaDeviceLists(RumaDeviceLists);

#[verifier::external_type_specification]
#[verifier::external_body]
pub struct ExTimelineEvent(TimelineEvent);

/// A response of the homeserver, read as the kind that it was declared as.
pub(crate) enum OwnedResponse {
    KeysClaim(KeysClaimResponse),
    KeysUpload(KeysUploadResponse),
    KeysQuery(KeysQueryResponse),
    ToDevice(ToDeviceResponse),
    SignatureUpload(SignatureUploadResponse),
    KeysBackup(KeysBackupResponse),
}

/// Whether a body is a response to an upload of keys: whether
/// `upload_keys::v3::Response::try_from_http_response` reads it from a
/// response of status 200.
pub uninterp spec fn is_keys_upload_response(body: Seq<char>) -> bool;

/// Whether a body is a response to a key query: whether
/// `get_keys::v3::Response::try_from_http_response` reads it from a response
/// of status 200.
pub uninterp spec fn is_keys_query_response(body: Seq<char>) -> bool;

/// Whether a body is a response to a to-device request: whether
/// `send_event_to_device::v3::Response::try_from_http_response` reads it
/// from a response of status 200.
pub uninterp spec fn is_to_device_response(body: Seq<char>) -> bool;

/// Whether a body is a response to a key claim: whether
/// `claim_keys::v3::Response::try_from_http_response` reads it from a
/// response of status 200.
pub uninterp spec fn is_keys_claim_response(body: Seq<char>) -> bool;

/// Whether a body is a response to an upload of signatures: whether
/// `upload_signatures::v3::Response::try_from_http_response` reads it from a
/// response of status 200.
pub uninterp spec fn is_signature_upload_response(body: Seq<char>) -> bool;

/// Whether a body is a response to an upload to the backup: whether
/// `add_backup_keys::v3::Response::try_from_http_response` reads it from a
/// response of status 200.
pub uninterp spec fn is_keys_backup_response(body: Seq<char>) -> bool;

/// Whether a text is the to-device part of a sync: whether
/// `serde_json::from_str` reads a `sync_events::v3::ToDevice` from it.
pub uninterp spec fn is_to_device_events(text: Seq<char>) -> bool;

/// A text as a JSON string: what `serde_json::to_string` writes for it.
pub uninterp spec fn json_of_text(text: Seq<char>) -> Seq<char>;

/// Whether a state of the room's outbound session lets encrypt: there is a
/// session, and it is not expired.
pub open spec fn usable(state: Option<bool>) -> bool {
    state == Some(false)
}

/// The key that a sender claims under an algorithm: that of the first entry
/// with the name of the algorithm.
pub open spec fn claimed_key_of(keys: Seq<(String, String)>, algorithm: Seq<char>) -> Option<
    String,
>
    decreases keys.len(),
{
    if keys.len() == 0 {
        None
    } else if keys[0].0@ == algorithm {
        Some(keys[0].1)
    } else {
        claimed_key_of(keys.drop_first(), algorithm)
    }
}

/// The clear event of a type and a content: a JSON object of the two fields
/// `type` and `content`, in this order, and of nothing else.
pub open spec fn clear_event_text(type_json: Seq<char>, content_json: Seq<char>) -> Seq<char> {
    "{\"type\":"@ + type_json + ",\"content\":"@ + content_json + "}"@
}

/// Whether a text is a clear event: the object of a type, written as a JSON
/// string, and of a content that is JSON.
pub open spec fn is_clear_event(text: Seq<char>) -> bool {
    exists|event_type: Seq<char>, content: Seq<char>|
        is_json(content) && text == #[trigger] clear_event_text(json_of_text(event_type), content)
}

/// Whether a decrypted event is made of what was read: the curve25519 key
/// of the sender and the keys that it claims, as the decryption told them,
/// and what the store told of the session.  The ed25519 key is the one that
/// the sender claims under that name, and the chain is `chain_of`.
pub open spec fn made_of(
    event: DecryptedEvent,
    keys: (String, Vec<(String, String)>),
    imported: Option<bool>,
    recorded: Option<Vec<String>>,
) -> bool {
    &&& event.sender_curve25519_key == keys.0
    &&& event.claimed_ed25519_key == claimed_key_of(keys.1@, "ed25519"@)
    &&& event.forwarding_curve25519_chain@ == chain_of(imported, recorded)
}

/// What is wrong with an event that was decrypted and cannot be handed out.
#[derive(Clone, Copy, Debug, PartialEq, Eq, Structural)]
pub enum EventFault {
    /// The decryption tells nothing of the sender.
    NoEncryptionInfo,
    /// The event has no type.
    NoType,
    /// The event has no content.
    NoContent,
}

/// What is read of a decrypted event, where nothing is wrong with it.
pub struct ClearParts {
    /// The curve25519 key of the sender.
    pub sender_curve25519_key: String,
    /// The ed25519 key that the sender claims, if it claims one.
    pub claimed_ed25519_key: Option<String>,
    /// The type of the event.
    pub event_type: String,
    /// The content of the event, as JSON.
    pub content: String,
}

/// The parts of a decrypted event, or what is wrong with it: the first of
/// encryption info, type and content that is missing.
pub open spec fn clear_parts_of(
    keys: Option<(String, Vec<(String, String)>)>,
    event_type: Option<String>,
    content: Option<String>,
) -> Result<ClearParts, EventFault> {
    if keys is None {
        Err(EventFault::NoEncryptionInfo)
    } else if event_type is None {
        Err(EventFault::NoType)
    } else if content is None {
        Err(EventFault::NoContent)
    } else {
        Ok(
            ClearParts {
                sender_curve25519_key: keys.unwrap().0,
                claimed_ed25519_key: claimed_key_of(keys.unwrap().1@, "ed25519"@),
                event_type: event_type->0,
                content: content->0,
            },
        )
    }
}

/// Whether a body is a response of the kind that it is declared as.
pub open spec fn is_response(kind: RequestType, body: Seq<char>) -> bool {
    match kind {
        RequestType::KeysUpload => is_keys_upload_response(body),
        RequestType::KeysQuery => is_keys_query_response(body),
        RequestType::ToDevice => is_to_device_response(body),
        RequestType::KeysClaim => is_keys_claim_response(body),
        RequestType::SignatureUpload => is_signature_upload_response(body),
        RequestType::KeysBackup => is_keys_backup_response(body),
    }
}

/// The claim that is in flight after a response was reported: the claim
/// that was in flight before, unless the response was taken in and goes
/// with the id of that very claim.
pub open spec fn claim_after(
    before: Option<Seq<char>>,
    request_id: Seq<char>,
    taken_in: bool,
) -> Option<Seq<char>> {
    if taken_in && before == Some(request_id) {
        None
    } else {
        before
    }
}

/// The ids of the requests that are answered after a response was
/// reported: one more where the response was taken in.
pub open spec fn acknowledged_after(
    before: Seq<Seq<char>>,
    request_id: Seq<char>,
    taken_in: bool,
) -> Seq<Seq<char>> {
    if taken_in {
        before.push(request_id)
    } else {
        before
    }
}

/// The number of one-time keys that a count reports: a negative count is
/// none.
pub open spec fn clamped(count: i32) -> u32 {
    if count < 0 {
        0
    } else {
        count as u32
    }
}

/// The counts of a list, clamped one by one, under their algorithms.
pub open spec fn clamped_counts(counts: Seq<(String, i32)>) -> Seq<(Seq<char>, u32)> {
    counts.map_values(|c: (String, i32)| (c.0@, clamped(c.1)))
}

/// The algorithms and counts of a list, as plain values.
pub open spec fn count_values(counts: Seq<(String, u32)>) -> Seq<(Seq<char>, u32)> {
    counts.map_values(|c: (String, u32)| (c.0@, c.1))
}

/// Reads a body as `upload_keys::v3::Response`, from an `http::Response` of
/// status 200 that holds it.
#[verifier::external_body]
fn parse_keys_upload(body: &str) -> (r: Result<KeysUploadResponse, serde_json::Error>)
    ensures
        r is Ok <==> is_keys_upload_response(body@),
{
    let response = Response::builder().status(200).body(body.as_bytes().to_vec());
    let response = response.expect("Can't create HTTP response");
    KeysUploadResponse::try_from_http_response(response).map_err(serde::de::Error::custom)
}

/// Reads a body as `get_keys::v3::Response`, from an `http::Response` of
/// status 200 that holds it.
#[verifier::external_body]
fn parse_keys_query(body: &str) -> (r: Result<KeysQueryResponse, serde_json::Error>)
    ensures
        r is Ok <==> is_keys_query_response(body@),
{
    let response = Response::builder().status(200).body(body.as_bytes().to_vec());
    let response = response.expect("Can't create HTTP response");
    KeysQueryResponse::try_from_http_response(response).map_err(serde::de::Error::custom)
}

/// Reads a body as `send_event_to_device::v3::Response`, from an
/// `http::Response` of status 200 that holds it.
#[verifier::external_body]
fn parse_to_device(body: &str) -> (r: Result<ToDeviceResponse, serde_json::Error>)
    ensures
        r is Ok <==> is_to_device_response(body@),
{
    let response = Response::builder().status(200).body(body.as_bytes().to_vec());
    let response = response.expect("Can't create HTTP response");
    ToDeviceResponse::try_from_http_response(response).map_err(serde::de::Error::custom)
}

/// Reads a body as `claim_keys::v3::Response`, from an `http::Response` of
/// status 200 that holds it.
#[verifier::external_body]
fn parse_keys_claim(body: &str) -> (r: Result<KeysClaimResponse, serde_json::Error>)
    ensures
        r is Ok <==> is_keys_claim_response(body@),
{
    let response = Response::builder().status(200).body(body.as_bytes().to_vec());
    let response = response.expect("Can't create HTTP response");
    KeysClaimResponse::try_from_http_response(response).map_err(serde::de::Error::custom)
}

/// Reads a body as `upload_signatures::v3::Response`, from an
/// `http::Response` of status 200 that holds it.
#[verifier::external_body]
fn parse_signature_upload(body: &str) -> (r: Result<SignatureUploadResponse, serde_json::Error>)
    ensures
        r is Ok <==> is_signature_upload_response(body@),
{
    let response = Response::builder().status(200).body(body.as_bytes().to_vec());
    let response = response.expect("Can't create HTTP response");
    SignatureUploadResponse::try_from_http_response(response).map_err(serde::de::Error::custom)
}

/// Reads a body as `add_backup_keys::v3::Response`, from an `http::Response`
/// of status 200 that holds it.
#[verifier::external_body]
fn parse_keys_backup(body: &str) -> (r: Result<KeysBackupResponse, serde_json::Error>)
    ensures
        r is Ok <==> is_keys_backup_response(body@),
{
    let response = Response::builder().status(200).body(body.as_bytes().to_vec());
    let response = response.expect("Can't create HTTP response");
    KeysBackupResponse::try_from_http_response(response).map_err(serde::de::Error::custom)
}

/// Runs `OlmMachine::mark_request_as_sent` to completion, with the response
/// as the `IncomingResponse` of its kind.
#[verifier::external_body]
fn mark_sent(
    runtime: &Runtime,
    machine: &InnerMachine,
    request_id: &str,
    response: &OwnedResponse,
) -> Result<(), OlmError> {
    let response = match response {
        OwnedResponse::KeysClaim(r) => MachineResponse::KeysClaim(r),
        OwnedResponse::KeysQuery(r) => MachineResponse::KeysQuery(r),
        OwnedResponse::KeysUpload(r) => MachineResponse::KeysUpload(r),
        OwnedResponse::ToDevice(r) => MachineResponse::ToDevice(r),
        OwnedResponse::SignatureUpload(r) => MachineResponse::SignatureUpload(r),
        OwnedResponse::KeysBackup(r) => MachineResponse::KeysBackup(r),
    };
    runtime.block_on(machine.mark_request_as_sent(request_id.into(), response))
}

/// Runs `OlmMachine::outgoing_requests` to completion.
#[verifier::external_body]
fn pending_requests(
    runtime: &Runtime,
    machine: &InnerMachine,
) -> Result<Vec<OutgoingRequest>, InnerStoreError> {
    runtime.block_on(machine.outgoing_requests())
}

/// Calls `serde_json::from_str` for the to-device part of a sync.
#[verifier::external_body]
fn parse_to_device_events(text: &str) -> (r: Result<ToDevice, serde_json::Error>)
    ensures
        r is Ok <==> is_to_device_events(text@),
{
    serde_json::from_str(text)
}

/// Makes the `DeviceLists` of `ruma` of two lists of user identifiers.
#[verifier::external_body]
fn ruma_device_lists(lists: &DeviceLists) -> RumaDeviceLists
    requires
        all_user_ids(lists.changed@),
        all_user_ids(lists.left@),
{
    let id = |u: &String| ruma::UserId::parse(u).expect("a checked user id");
    let mut out = RumaDeviceLists::new();
    out.changed = lists.changed.iter().map(id).collect();
    out.left = lists.left.iter().map(id).collect();
    out
}

/// Runs `OlmMachine::receive_sync_changes` to completion, without a batch
/// token, and hands back the to-device events that it returns, and what it
/// tells of the room keys that it stored.
#[verifier::external_body]
fn sync_changes(
    runtime: &Runtime,
    machine: &InnerMachine,
    events: ToDevice,
    changed_devices: &RumaDeviceLists,
    counts: &Vec<(String, u32)>,
    unused: &Option<Vec<String>>,
) -> Result<(ToDevice, Vec<RoomKeyInfo>), OlmError> {
    let algorithm = |k: &String| DeviceKeyAlgorithm::from(k.as_str());
    let counts: BTreeMap<_, _> = counts.iter().map(|(k, v)| (algorithm(k), UInt::from(*v))).collect();
    let unused: Option<Vec<_>> = unused.as_ref().map(|u| u.iter().map(algorithm).collect());
    let changes = EncryptionSyncChanges {
        to_device_events: events.events,
        changed_devices,
        one_time_keys_counts: &counts,
        unused_fallback_keys: unused.as_deref(),
        next_batch_token: None,
    };
    let (events, keys) = runtime.block_on(machine.receive_sync_changes(changes))?;
    let mut out = ToDevice::new();
    out.events = events;
    Ok((out, keys))
}

/// Calls `serde_json::to_string` on the to-device part of a sync.
#[verifier::external_body]
fn to_device_events_json(events: &ToDevice) -> (r: Result<String, serde_json::Error>)
    ensures
        r is Ok ==> is_json(r->Ok_0@),
{
    serde_json::to_string(events)
}

/// Runs `OlmMachine::get_missing_sessions` to completion, and writes the
/// transaction id of the claim as text.
#[verifier::external_body]
fn missing_sessions(
    runtime: &Runtime,
    machine: &InnerMachine,
    users: &Vec<String>,
) -> Result<Option<(String, KeysClaimRequest)>, InnerStoreError>
    requires
        all_user_ids(users@),
{
    let users = users.iter().map(|u| <&ruma::UserId>::try_from(u.as_str()).expect("a checked id"));
    let claim = runtime.block_on(machine.get_missing_sessions(users))?;
    Ok(claim.map(|(id, request)| (id.to_string(), request)))
}

/// Runs `OlmMachine::share_room_key` to completion, with the default
/// `EncryptionSettings`.
#[verifier::external_body]
fn share_key(
    runtime: &Runtime,
    machine: &InnerMachine,
    room_id: &str,
    users: &Vec<String>,
) -> Result<Vec<ToDeviceRequest>, OlmError>
    requires
        room_id_valid(room_id@),
        all_user_ids(users@),
{
    let room_id = <&ruma::RoomId>::try_from(room_id).expect("a checked room id");
    let users = users.iter().map(|u| <&ruma::UserId>::try_from(u.as_str()).expect("a checked id"));
    let settings = EncryptionSettings::default();
    let requests = runtime.block_on(machine.share_room_key(room_id, users, settings))?;
    Ok(requests.iter().map(|r| ToDeviceRequest::clone(r)).collect())
}

/// Asks the store of the machine, through
/// `CryptoStore::get_outbound_group_session`, for the outbound group session
/// of the room, and the session, where there is one, whether it is
/// `expired`.
#[verifier::external_body]
fn session_state(
    runtime: &Runtime,
    machine: &InnerMachine,
    room_id: &str,
) -> Result<Option<bool>, InnerStoreError>
    requires
        room_id_valid(room_id@),
{
    let room_id = <&ruma::RoomId>::try_from(room_id).expect("a checked room id");
    let session = runtime.block_on(machine.store().get_outbound_group_session(room_id))?;
    Ok(session.map(|s| s.expired()))
}

/// Runs `OlmMachine::encrypt_room_event_raw` to completion as a task of its
/// own, with `Runtime::spawn_blocking`.  The call aborts where the room has no
/// outbound group session or an expired one; the abort ends the task, and
/// comes back as `None`.
#[verifier::external_body]
fn encrypt_event(
    runtime: &Runtime,
    machine: &InnerMachine,
    room_id: &str,
    event_type: &str,
    content: &str,
) -> (r: Option<Result<String, MegolmError>>)
    requires
        room_id_valid(room_id@),
        is_json(content@),
    ensures
        r matches Some(Ok(text)) ==> is_json(text@),
{
    let room_id = ruma::RoomId::parse(room_id).expect("a checked room id");
    let content = serde_json::from_str::<Raw<_>>(content).expect("checked JSON");
    let (machine, kind, handle) = (machine.clone(), event_type.to_owned(), runtime.handle().clone());
    let task = runtime.spawn_blocking(move || {
        handle.block_on(machine.encrypt_room_event_raw(&room_id, &kind, &content))
    });
    let encrypted = runtime.block_on(task).ok()?;
    Some(encrypted.and_then(|e| Ok(serde_json::to_string(&e)?)))
}

/// Takes the store's failure out of a `MegolmError`; any other failure is
/// wrapped as a failure of the store's backend.
#[verifier::external_body]
fn store_failure(e: MegolmError) -> InnerStoreError {
    match e {
        MegolmError::Store(e) => e,
        other => InnerStoreError::backend(other),
    }
}

/// Runs `OlmMachine::decrypt_room_event` to completion.
#[verifier::external_body]
fn decrypt_event(
    runtime: &Runtime,
    machine: &InnerMachine,
    event: &str,
    room_id: &str,
) -> Result<TimelineEvent, MegolmError>
    requires
        is_json(event@),
        room_id_valid(room_id@),
{
    let event = serde_json::from_str::<Raw<_>>(event).expect("checked JSON");
    let room_id = <&ruma::RoomId>::try_from(room_id).expect("a checked room id");
    runtime.block_on(machine.decrypt_room_event(&event, room_id))
}

/// Reads the `encryption_info` of a decrypted event, if it has one: the
/// curve25519 key of the sender, and the keys that the sender claims, each
/// under the name of its algorithm.
#[verifier::external_body]
fn sender_keys(event: &TimelineEvent) -> Option<(String, Vec<(String, String)>)> {
    event.encryption_info.as_ref().map(|info| match &info.algorithm_info {
        AlgorithmInfo::MegolmV1AesSha2 { curve25519_key, sender_claimed_keys } => (
            curve25519_key.to_owned(),
            sender_claimed_keys.iter().map(|(a, k)| (a.to_string(), k.to_owned())).collect(),
        ),
    })
}

/// Reads a field of a decrypted event as text, with `Raw::get_field`:
/// nothing where the event has no such field, a failure where the field is
/// no text.
#[verifier::external_body]
fn text_field(event: &TimelineEvent, name: &str) -> Result<Option<String>, serde_json::Error> {
    event.event.get_field::<String>(name)
}

/// Reads a field of a decrypted event as the JSON that it is, with
/// `Raw::get_field`: nothing where the event has no such field.
#[verifier::external_body]
fn json_field(event: &TimelineEvent, name: &str) -> (r: Result<Option<String>, serde_json::Error>)
    ensures
        r matches Ok(Some(text)) ==> is_json(text@),
{
    let field = event.event.get_field::<Raw<serde_json::Value>>(name)?;
    Ok(field.map(|f| f.json().get().to_owned()))
}

/// Calls `serde_json::to_string` on a text: the text as a JSON string.
#[verifier::external_body]
fn quote(text: &str) -> (r: Result<String, serde_json::Error>)
    ensures
        r is Ok ==> r->Ok_0@ == json_of_text(text@) && is_json(r->Ok_0@),
{
    serde_json::to_string(text)
}

/// Runs `OlmMachine::request_room_key` to completion.
#[verifier::external_body]
fn request_key(
    runtime: &Runtime,
    machine: &InnerMachine,
    event: &str,
    room_id: &str,
) -> Result<(Option<OutgoingRequest>, OutgoingRequest), MegolmError>
    requires
        is_json(event@),
        room_id_valid(room_id@),
{
    let event = serde_json::from_str::<Raw<_>>(event).expect("checked JSON");
    let room_id = <&ruma::RoomId>::try_from(room_id).expect("a checked room id");
    runtime.block_on(machine.request_room_key(&event, room_id))
}

/// Runs `OlmMachine::invalidate_group_session` to completion.
#[verifier::external_body]
fn invalidate_session(
    runtime: &Runtime,
    machine: &InnerMachine,
    room_id: &str,
) -> Result<bool, InnerStoreError>
    requires
        room_id_valid(room_id@),
{
    let room_id = <&ruma::RoomId>::try_from(room_id).expect("a checked room id");
    runtime.block_on(machine.invalidate_group_session(room_id))
}

/// Whether a state of the room's outbound session lets encrypt.
pub fn is_usable(state: Option<bool>) -> (r: bool)
    ensures
        r == usable(state),
{
    match state {
        Some(expired) => !expired,
        None => false,
    }
}

/// Decides before an event is encrypted: lets through where the room key
/// can be used, and refuses with `NoRoomKey` and the room where it cannot.
pub fn room_key_gate(usable: bool, room_id: &str) -> (r: Result<(), CryptoStoreError>)
    ensures
        usable ==> r is Ok,
        !usable ==> (r matches Err(CryptoStoreError::NoRoomKey(room)) && room@ == room_id@),
{
    if usable {
        Ok(())
    } else {
        Err(CryptoStoreError::NoRoomKey(room_id.to_owned()))
    }
}

/// The key that a sender claims under an algorithm, if it claims one.
pub fn claimed_key(keys: &Vec<(String, String)>, algorithm: &str) -> (r: Option<String>)
    ensures
        r == claimed_key_of(keys@, algorithm@),
{
    let wanted: String = algorithm.to_owned();
    let mut i: usize = 0;
    proof {
        assert(keys@.skip(0) =~= keys@);
    }
    while i < keys.len()
        invariant
            0 <= i <= keys.len(),
            wanted@ == algorithm@,
            claimed_key_of(keys@, algorithm@) == claimed_key_of(keys@.skip(i as int), algorithm@),
        decreases keys.len() - i,
    {
        proof {
            assert(keys@.skip(i as int)[0] == keys@[i as int]);
            assert(keys@.skip(i as int).drop_first() =~= keys@.skip(i as int + 1));
        }
        let same: bool = keys[i].0 == wanted;
        if same {
            return Some(keys[i].1.clone());
        }
        i += 1;
    }
    proof {
        assert(keys@.skip(keys.len() as int).len() == 0);
    }
    None
}

/// The parts of a decrypted event, from what was read of it: whether it has
/// encryption info, a type and a content is asked in this order, and the
/// first that is missing is what is wrong with the event.
pub fn clear_parts(
    keys: Option<(String, Vec<(String, String)>)>,
    event_type: Option<String>,
    content: Option<String>,
) -> (r: Result<ClearParts, EventFault>)
    ensures
        r == clear_parts_of(keys, event_type, content),
        r is Ok <==> keys is Some && event_type is Some && content is Some,
        r == Err::<ClearParts, EventFault>(EventFault::NoEncryptionInfo) <==> keys is None,
        r == Err::<ClearParts, EventFault>(EventFault::NoType) <==> keys is Some && event_type
            is None,
        r == Err::<ClearParts, EventFault>(EventFault::NoContent) <==> keys is Some && event_type
            is Some && content is None,
{
    let (sender_curve25519_key, claimed) = match keys {
        Some(keys) => keys,
        None => { return Err(EventFault::NoEncryptionInfo); },
    };
    let event_type = match event_type {
        Some(event_type) => event_type,
        None => { return Err(EventFault::NoType); },
    };
    let content = match content {
        Some(content) => content,
        None => { return Err(EventFault::NoContent); },
    };
    let claimed_ed25519_key = claimed_key(&claimed, "ed25519");
    Ok(ClearParts { sender_curve25519_key, claimed_ed25519_key, event_type, content })
}

/// The clear event of a type and a content, both as JSON: the object of the
/// two fields `type` and `content`, in this order.
pub fn clear_event(type_json: &str, content_json: &str) -> (r: String)
    ensures
        r@ == clear_event_text(type_json@, content_json@),
{
    let mut text = String::new();
    text.append("{\"type\":");
    text.append(type_json);
    text.append(",\"content\":");
    text.append(content_json);
    text.append("}");
    proof {
        assert(text@ =~= clear_event_text(type_json@, content_json@));
    }
    text
}

/// The error that tells what is wrong with a decrypted event.
fn fault_error(fault: EventFault) -> (r: DecryptionError)
    ensures
        r is Serialization,
{
    match fault {
        EventFault::NoEncryptionInfo => DecryptionError::Serialization(
            json_error("the decrypted event has no encryption info"),
        ),
        EventFault::NoType => DecryptionError::Serialization(
            json_error("the decrypted event has no type"),
        ),
        EventFault::NoContent => DecryptionError::Serialization(
            json_error("the decrypted event has no content"),
        ),
    }
}

/// Reads a response body as the kind that it is declared as.
pub(crate) fn parse_response(request_type: RequestType, body: &str) -> (r: Result<
    OwnedResponse,
    serde_json::Error,
>)
    ensures
        r is Ok <==> is_response(request_type, body@),
{
    match request_type {
        RequestType::KeysUpload => match parse_keys_upload(body) {
            Ok(r) => Ok(OwnedResponse::KeysUpload(r)),
            Err(e) => Err(e),
        },
        RequestType::KeysQuery => match parse_keys_query(body) {
            Ok(r) => Ok(OwnedResponse::KeysQuery(r)),
            Err(e) => Err(e),
        },
        RequestType::ToDevice => match parse_to_device(body) {
            Ok(r) => Ok(OwnedResponse::ToDevice(r)),
            Err(e) => Err(e),
        },
        RequestType::KeysClaim => match parse_keys_claim(body) {
            Ok(r) => Ok(OwnedResponse::KeysClaim(r)),
            Err(e) => Err(e),
        },
        RequestType::SignatureUpload => match parse_signature_upload(body) {
            Ok(r) => Ok(OwnedResponse::SignatureUpload(r)),
            Err(e) => Err(e),
        },
        RequestType::KeysBackup => match parse_keys_backup(body) {
            Ok(r) => Ok(OwnedResponse::KeysBackup(r)),
            Err(e) => Err(e),
        },
    }
}

/// The number of one-time keys that a count reports: a negative count is
/// none.
pub fn clamp_key_count(count: i32) -> (r: u32)
    ensures
        r == clamped(count),
{
    if count < 0 {
        0
    } else {
        count as u32
    }
}

/// The counts of one-time keys as the machine takes them: each algorithm
/// with its count, clamped, in the order of the list.
pub fn clamp_key_counts(counts: Vec<(String, i32)>) -> (r: Vec<(String, u32)>)
    ensures
        count_values(r@) == clamped_counts(counts@),
{
    let mut out: Vec<(String, u32)> = Vec::new();
    let mut i: usize = 0;
    while i < counts.len()
        invariant
            0 <= i <= counts.len(),
            count_values(out@) == clamped_counts(counts@.take(i as int)),
        decreases counts.len() - i,
    {
        let ghost before = out@;
        let entry = &counts[i];
        out.push((entry.0.clone(), clamp_key_count(entry.1)));
        proof {
            assert(counts@.take(i as int + 1) =~= counts@.take(i as int).push(counts@[i as int]));
            assert(count_values(out@) =~= count_values(before).push(
                (counts@[i as int].0@, clamped(counts@[i as int].1)),
            ));
            assert(clamped_counts(counts@.take(i as int + 1)) =~= clamped_counts(
                counts@.take(i as int),
            ).push((counts@[i as int].0@, clamped(counts@[i as int].1))));
        }
        i += 1;
    }
    proof {
        assert(counts@.take(counts.len() as int) =~= counts@);
    }
    out
}

impl Request {
    /// The plain forms of a list of to-device requests, in the order of the
    /// list; the first that cannot be written as JSON ends it.
    pub(crate) fn from_to_device_list(requests: &Vec<ToDeviceRequest>) -> (r: Result<
        Vec<Request>,
        serde_json::Error,
    >)
        ensures
            r is Ok ==> r->Ok_0@.len() == requests@.len(),
            r is Ok ==> forall|i: int| 0 <= i < r->Ok_0@.len() ==> #[trigger] r->Ok_0@[i] is ToDevice,
            r is Ok ==> all_well_formed(r->Ok_0@),
    {
        let mut out: Vec<Request> = Vec::new();
        let mut i: usize = 0;
        while i < requests.len()
            invariant
                0 <= i <= requests.len(),
                out@.len() == i,
                forall|j: int| 0 <= j < out@.len() ==> #[trigger] out@[j] is ToDevice,
                all_well_formed(out@),
            decreases requests.len() - i,
        {
            match Request::from_to_device(&requests[i]) {
                Ok(r) => out.push(r),
                Err(e) => { return Err(e); },
            }
            i += 1;
        }
        Ok(out)
    }
}

impl DecryptedEvent {
    /// Puts a decrypted event together, of the parts that were read of it,
    /// the clear event that was written of type and content, and the chain
    /// of those who forwarded the room key.
    pub fn from_parts(parts: ClearParts, clear_event: String, chain: Vec<String>) -> (r:
        DecryptedEvent)
        ensures
            r.clear_event == clear_event,
            r.sender_curve25519_key == parts.sender_curve25519_key,
            r.claimed_ed25519_key == parts.claimed_ed25519_key,
            r.forwarding_curve25519_chain == chain,
    {
        DecryptedEvent {
            clear_event,
            sender_curve25519_key: parts.sender_curve25519_key,
            claimed_ed25519_key: parts.claimed_ed25519_key,
            forwarding_curve25519_chain: chain,
        }
    }
}

impl OlmMachine {
    /// The requests that wait to be sent to the homeserver.
    ///
    /// Asking changes nothing: until a request is reported as sent it stays
    /// pending.  Once a request was sent and answered, the answer goes back
    /// in through `mark_request_as_sent`.
    ///
    /// No two requests of the list share an id: were the machine ever to
    /// issue an id twice, only the first request under it would be kept.
    ///
    /// The ids of the list go on the record of what was handed out, by
    /// which `mark_request_as_sent` knows a request; nothing else changes,
    /// however often the list is asked for.
    pub fn outgoing_requests(&mut self) -> (r: Result<Vec<Request>, CryptoStoreError>)
        ensures
            r is Ok ==> distinct_ids(r->Ok_0@),
            r is Ok ==> all_well_formed(r->Ok_0@),
            r is Err ==> r->Err_0 is CryptoStore || r->Err_0 is Serialization,
            final(self).handed_out_since(old(self)),
            r is Ok ==> forall|k: int|
                0 <= k < r->Ok_0@.len() ==> final(self).was_issued(#[trigger] r->Ok_0@[k].id()),
    {
        let listed = match pending_requests(&self.runtime, self.inner()) {
            Ok(listed) => listed,
            Err(e) => { return Err(CryptoStoreError::CryptoStore(e)); },
        };
        let pending = match Pending::read_list(&listed) {
            Ok(pending) => pending,
            Err(e) => { return Err(CryptoStoreError::Serialization(e)); },
        };
        let requests = first_of_each(Request::from_list(pending));
        self.issue_all(&requests);
        Ok(requests)
    }

    /// Reports a request as sent, and hands in the body of the response.
    ///
    /// The body is read as a response of the kind `request_type`.  Where it
    /// is none, the call fails before the machine has seen anything of it.
    /// A response is taken in once: where the machine took in a response to
    /// the request before, the call does nothing, whatever the body.  A
    /// response that is taken in ends the flight of the claim of one-time
    /// keys, where it goes with the id of that claim; nothing else does.
    ///
    /// A response is taken in only for a request that the machine handed
    /// out: under an id that it never handed out, a body that can be read
    /// fails with `UnknownRequest`, and the machine is not asked.
    pub fn mark_request_as_sent(
        &mut self,
        request_id: &str,
        request_type: RequestType,
        response_body: &str,
    ) -> (r: Result<(), CryptoStoreError>)
        ensures
            old(self).was_acknowledged(request_id@) ==> r is Ok && final(self).acknowledged()
                == old(self).acknowledged() && final(self).claim_in_flight()
                == old(self).claim_in_flight(),
            !old(self).was_acknowledged(request_id@) ==> {
                &&& !is_response(request_type, response_body@) ==> r is Err && r->Err_0
                    is Serialization
                &&& is_response(request_type, response_body@) && !old(self).was_issued(
                    request_id@,
                ) ==> (r matches Err(CryptoStoreError::UnknownRequest(id)) && id@ == request_id@)
                &&& is_response(request_type, response_body@) && old(self).was_issued(request_id@)
                    && r is Err ==> r->Err_0 is OlmError
                &&& final(self).acknowledged() == acknowledged_after(
                    old(self).acknowledged(),
                    request_id@,
                    r is Ok,
                )
                &&& final(self).claim_in_flight() == claim_after(
                    old(self).claim_in_flight(),
                    request_id@,
                    r is Ok,
                )
            },
            final(self).issued() == old(self).issued(),
            final(self).cancelled() == old(self).cancelled(),
    {
        if self.is_acknowledged(request_id) {
            return Ok(());
        }
        let response = match parse_response(request_type, response_body) {
            Ok(response) => response,
            Err(e) => { return Err(CryptoStoreError::Serialization(e)); },
        };
        if !self.is_issued(request_id) {
            return Err(CryptoStoreError::UnknownRequest(request_id.to_owned()));
        }
        match mark_sent(self.runtime(), self.inner(), request_id, &response) {
            Ok(()) => {
                if self.is_claim_in_flight(request_id) {
                    self.set_claim(None);
                }
                self.acknowledge(request_id);
                Ok(())
            },
            Err(e) => Err(CryptoStoreError::OlmError(e)),
        }
    }

    /// Takes in what a sync brought for encryption, and hands back the
    /// to-device events of the sync: those that were encrypted in their
    /// decrypted form, the others as they came.
    ///
    /// `events` is the to-device part of the sync, as JSON; `device_changes`
    /// the users whose devices changed; `key_counts` the number of one-time
    /// keys that the server holds for us, by algorithm, and where an algorithm
    /// stands twice the later count is taken; `unused_fallback_keys` the
    /// algorithms of the fallback keys that nobody used yet.  Strings that are
    /// no user identifiers are dropped from the changes, and a negative count
    /// is taken as none.
    ///
    /// Where the sync brought a forwarded room key that the machine stored,
    /// the chain of the devices that forwarded it is put into the store
    /// with it, for `decrypt_room_event` to hand out.
    pub fn receive_sync_changes(
        &self,
        events: &str,
        device_changes: DeviceLists,
        key_counts: Vec<(String, i32)>,
        unused_fallback_keys: Option<Vec<String>>,
    ) -> (r: Result<String, CryptoStoreError>)
        ensures
            !is_to_device_events(events@) ==> r is Err && r->Err_0 is Serialization,
            is_to_device_events(events@) && r is Err ==> r->Err_0 is OlmError || r->Err_0
                is Serialization || r->Err_0 is CryptoStore,
            r is Ok ==> is_json(r->Ok_0@),
    {
        let sent = match parse_to_device_events(events) {
            Ok(sent) => sent,
            Err(e) => { return Err(CryptoStoreError::Serialization(e)); },
        };
        let device_changes = ruma_device_lists(&device_changes.valid());
        let key_counts = clamp_key_counts(key_counts);
        let (received, stored) = match sync_changes(
            &self.runtime,
            self.inner(),
            sent,
            &device_changes,
            &key_counts,
            &unused_fallback_keys,
        ) {
            Ok(changes) => changes,
            Err(e) => { return Err(CryptoStoreError::OlmError(e)); },
        };
        let received = match to_device_events_json(&received) {
            Ok(received) => received,
            Err(e) => { return Err(CryptoStoreError::Serialization(e)); },
        };
        match self.record_forwards(events, received.as_str(), &room_keys_of(&stored)) {
            Ok(()) => Ok(received),
            Err(e) => Err(CryptoStoreError::CryptoStore(e)),
        }
    }

    /// A claim of one-time keys for the devices of the users with which we
    /// have no pairwise session, or nothing where none is missing.  Strings
    /// that are no user identifiers are dropped.
    ///
    /// At most one claim is in flight.  While the response to a claim that
    /// was handed out has not been reported with `mark_request_as_sent`,
    /// nothing comes back, and the machine is not asked.
    ///
    /// To be called before `share_room_key`.
    pub fn get_missing_sessions(&mut self, users: Vec<String>) -> (r: Result<
        Option<Request>,
        CryptoStoreError,
    >)
        ensures
            final(self).acknowledged() == old(self).acknowledged(),
            final(self).cancelled() == old(self).cancelled(),
            forall|id: Seq<char>| old(self).was_issued(id) ==> final(self).was_issued(id),
            r matches Ok(Some(request)) ==> final(self).was_issued(request.id()),
            old(self).claim_in_flight() is Some ==> r is Ok && r->Ok_0 is None
                && final(self).claim_in_flight() == old(self).claim_in_flight(),
            old(self).claim_in_flight() is None ==> match r {
                Ok(Some(request)) => request is KeysClaim && final(self).claim_in_flight()
                    == Some(request.id()),
                Ok(None) => final(self).claim_in_flight() is None,
                Err(e) => e is CryptoStore && final(self).claim_in_flight() is None,
            },
    {
        if self.has_claim_in_flight() {
            return Ok(None);
        }
        let users = valid_user_ids(users);
        match missing_sessions(self.runtime(), self.inner(), &users) {
            Ok(Some((request_id, claim))) => {
                self.set_claim(Some(request_id.clone()));
                self.issue(request_id.as_str());
                Ok(Some(Request::from_keys_claim(request_id, &claim)))
            },
            Ok(None) => Ok(None),
            Err(e) => Err(CryptoStoreError::CryptoStore(e)),
        }
    }

    /// The to-device requests that hand the room key of a room to the
    /// devices of its members; a new room key where the room has none that
    /// can be used.  Strings that are no user identifiers are dropped from
    /// the members.
    ///
    /// To be called before `encrypt`.
    pub fn share_room_key(&mut self, room_id: &str, users: Vec<String>) -> (r: Result<
        Vec<Request>,
        CryptoStoreError,
    >)
        ensures
            final(self).handed_out_since(old(self)),
            r is Ok ==> forall|k: int|
                0 <= k < r->Ok_0@.len() ==> final(self).was_issued(#[trigger] r->Ok_0@[k].id()),
            !room_id_valid(room_id@) ==> r is Err && r->Err_0 is Identifier,
            room_id_valid(room_id@) && r is Err ==> r->Err_0 is OlmError || r->Err_0
                is Serialization,
            r is Ok ==> forall|i: int| 0 <= i < r->Ok_0@.len() ==> #[trigger] r->Ok_0@[i] is ToDevice,
            r is Ok ==> all_well_formed(r->Ok_0@),
    {
        let users = valid_user_ids(users);
        match check_room_id(room_id) {
            Ok(()) => {},
            Err(e) => { return Err(CryptoStoreError::Identifier(e)); },
        }
        let shared = match share_key(&self.runtime, self.inner(), room_id, &users) {
            Ok(shared) => shared,
            Err(e) => { return Err(CryptoStoreError::OlmError(e)); },
        };
        match Request::from_to_device_list(&shared) {
            Ok(requests) => {
                self.issue_all(&requests);
                Ok(requests)
            },
            Err(e) => Err(CryptoStoreError::Serialization(e)),
        }
    }

    /// Encrypts an event for a room, and hands back the content of the
    /// encrypted event, as JSON.
    ///
    /// The room key has to be shared first: without a room key that can be
    /// used the call fails with `NoRoomKey`.  Whether the key can be used
    /// is asked of the store first, and the answer goes through
    /// `room_key_gate`; a key that is gone or expired by the time the event
    /// is encrypted gives `NoRoomKey` as well.
    pub fn encrypt(&self, room_id: &str, event_type: &str, content: &str) -> (r: Result<
        String,
        CryptoStoreError,
    >)
        ensures
            !room_id_valid(room_id@) ==> r is Err && r->Err_0 is Identifier,
            room_id_valid(room_id@) && !is_json(content@) ==> r is Err && r->Err_0
                is Serialization,
            room_id_valid(room_id@) && is_json(content@) && r is Err ==> r->Err_0 is NoRoomKey
                || r->Err_0 is CryptoStore,
            r matches Err(CryptoStoreError::NoRoomKey(room)) ==> room@ == room_id@,
            r is Ok ==> is_json(r->Ok_0@),
    {
        match check_room_id(room_id) {
            Ok(()) => {},
            Err(e) => { return Err(CryptoStoreError::Identifier(e)); },
        }
        match check_json(content) {
            Ok(()) => {},
            Err(e) => { return Err(CryptoStoreError::Serialization(e)); },
        }
        let state = match session_state(&self.runtime, self.inner(), room_id) {
            Ok(state) => state,
            Err(e) => { return Err(CryptoStoreError::CryptoStore(e)); },
        };
        match room_key_gate(is_usable(state), room_id) {
            Ok(()) => {},
            Err(e) => { return Err(e); },
        }
        match encrypt_event(&self.runtime, self.inner(), room_id, event_type, content) {
            Some(Ok(encrypted)) => Ok(encrypted),
            Some(Err(e)) => Err(CryptoStoreError::CryptoStore(store_failure(e))),
            None => Err(CryptoStoreError::NoRoomKey(room_id.to_owned())),
        }
    }

    /// Decrypts an event of a room.
    ///
    /// `event` is the encrypted event as JSON.  A failure of the group
    /// session comes back as `MissingRoomKey` where the room key is missing,
    /// and worth asking for, and as `Megolm` else;
    /// `DecryptionError::is_recoverable` tells the two apart.
    ///
    /// The clear event is the object of the type and the content of the
    /// decrypted event, and of nothing else; what is made of what was read
    /// is `clear_parts` and `clear_event`.  The keys are those that the
    /// decryption tells of the sender.  The chain is that of the devices
    /// that forwarded the room key, as `receive_sync_changes` took it down:
    /// it is empty where the key came from the sender itself.
    pub fn decrypt_room_event(&self, event: &str, room_id: &str) -> (r: Result<
        DecryptedEvent,
        DecryptionError,
    >)
        ensures
            !is_json(event@) ==> r is Err && r->Err_0 is Serialization,
            is_json(event@) && !room_id_valid(room_id@) ==> r is Err && r->Err_0 is Identifier,
            is_json(event@) && room_id_valid(room_id@) && r is Err ==> r->Err_0 is MissingRoomKey
                || r->Err_0 is Megolm
                || r->Err_0 is Serialization,
            r is Ok ==> is_clear_event(r->Ok_0.clear_event@),
            r is Ok ==> is_json(r->Ok_0.clear_event@),
            r is Ok ==> exists|
                keys: (String, Vec<(String, String)>),
                imported: Option<bool>,
                recorded: Option<Vec<String>>,
            | #[trigger] made_of(r->Ok_0, keys, imported, recorded),
    {
        match check_json(event) {
            Ok(()) => {},
            Err(e) => { return Err(DecryptionError::Serialization(e)); },
        }
        match check_room_id(room_id) {
            Ok(()) => {},
            Err(e) => { return Err(DecryptionError::Identifier(e)); },
        }
        let decrypted = match decrypt_event(&self.runtime, self.inner(), event, room_id) {
            Ok(decrypted) => decrypted,
            Err(e) => { return Err(DecryptionError::from_megolm(e)); },
        };
        let event_type = match text_field(&decrypted, "type") {
            Ok(event_type) => event_type,
            Err(e) => { return Err(DecryptionError::Serialization(e)); },
        };
        let content = match json_field(&decrypted, "content") {
            Ok(content) => content,
            Err(e) => { return Err(DecryptionError::Serialization(e)); },
        };
        let keys = sender_keys(&decrypted);
        let ghost read = keys;
        let parts = match clear_parts(keys, event_type, content) {
            Ok(parts) => parts,
            Err(fault) => { return Err(fault_error(fault)); },
        };
        let (imported, recorded) = match self.origin(event, room_id) {
            Ok(origin) => origin,
            Err(e) => { return Err(DecryptionError::from_megolm(e)); },
        };
        let type_json = match quote(parts.event_type.as_str()) {
            Ok(type_json) => type_json,
            Err(e) => { return Err(DecryptionError::Serialization(e)); },
        };
        let text = clear_event(type_json.as_str(), parts.content.as_str());
        match check_json(text.as_str()) {
            Ok(()) => {},
            Err(e) => { return Err(DecryptionError::Serialization(e)); },
        }
        proof {
            assert(text@ == clear_event_text(json_of_text(parts.event_type@), parts.content@));
        }
        let decrypted = DecryptedEvent::from_parts(
            parts,
            text,
            forwarding_chain(imported, recorded),
        );
        proof {
            assert(made_of(decrypted, read->0, imported, recorded));
        }
        Ok(decrypted)
    }

    /// Asks for the room key of an event that could not be decrypted.
    ///
    /// Where a request for the same key is out already, the pair holds its
    /// cancellation, to be sent first.
    pub fn request_room_key(&mut self, event: &str, room_id: &str) -> (r: Result<
        KeyRequestPair,
        DecryptionError,
    >)
        ensures
            final(self).handed_out_since(old(self)),
            r is Ok ==> final(self).was_issued(r->Ok_0.key_request.id()),
            r is Ok && r->Ok_0.cancellation is Some ==> final(self).was_issued(
                r->Ok_0.cancellation->0.id(),
            ),
            !is_json(event@) ==> r is Err && r->Err_0 is Serialization,
            is_json(event@) && !room_id_valid(room_id@) ==> r is Err && r->Err_0 is Identifier,
            is_json(event@) && room_id_valid(room_id@) && r is Err ==> r->Err_0 is MissingRoomKey
                || r->Err_0 is Megolm
                || r->Err_0 is Serialization,
            r is Ok ==> r->Ok_0.key_request.well_formed() && (r->Ok_0.cancellation is Some
                ==> r->Ok_0.cancellation->0.well_formed()),
    {
        match check_json(event) {
            Ok(()) => {},
            Err(e) => { return Err(DecryptionError::Serialization(e)); },
        }
        match check_room_id(room_id) {
            Ok(()) => {},
            Err(e) => { return Err(DecryptionError::Identifier(e)); },
        }
        let (cancel, request) = match request_key(&self.runtime, self.inner(), event, room_id) {
            Ok(pair) => pair,
            Err(e) => { return Err(DecryptionError::from_megolm(e)); },
        };
        let cancellation = match cancel {
            Some(cancel) => match Request::from_outgoing(&cancel) {
                Ok(r) => Some(r),
                Err(e) => { return Err(DecryptionError::Serialization(e)); },
            },
            None => None,
        };
        let key_request = match Request::from_outgoing(&request) {
            Ok(key_request) => key_request,
            Err(e) => { return Err(DecryptionError::Serialization(e)); },
        };
        match &cancellation {
            Some(cancellation) => self.issue(cancellation.request_id().as_str()),
            None => {},
        }
        self.issue(key_request.request_id().as_str());
        Ok(KeyRequestPair { cancellation, key_request })
    }

    /// Discards the room key of a room, if there is one: the next
    /// `share_room_key` makes a new one.
    pub fn discard_room_key(&self, room_id: &str) -> (r: Result<(), CryptoStoreError>)
        ensures
            !room_id_valid(room_id@) ==> r is Err && r->Err_0 is Identifier,
            room_id_valid(room_id@) && r is Err ==> r->Err_0 is CryptoStore,
    {
        match check_room_id(room_id) {
            Ok(()) => {},
            Err(e) => { return Err(CryptoStoreError::Identifier(e)); },
        }
        match invalidate_session(&self.runtime, self.inner(), room_id) {
            Ok(_) => Ok(()),
            Err(e) => Err(CryptoStoreError::CryptoStore(e)),
        }
    }
}

/// A response that was taken in is not taken in again: once the id of a
/// request is among the answered, it stays there, whatever is reported
/// after.
pub proof fn lemma_acknowledged_stays(
    before: Seq<Seq<char>>,
    request_id: Seq<char>,
    taken_in: bool,
    other: Seq<char>,
)
    requires
        before.contains(other),
    ensures
        acknowledged_after(before, request_id, taken_in).contains(other),
{
    if taken_in {
        let k = choose|k: int| 0 <= k < before.len() && before[k] == other;
        assert(before.push(request_id)[k] == other);
    }
}

/// A response that is taken in makes its request answered.
pub proof fn lemma_taken_in_is_acknowledged(before: Seq<Seq<char>>, request_id: Seq<char>)
    ensures
        acknowledged_after(before, request_id, true).contains(request_id),
{
    assert(before.push(request_id)[before.len() as int] == request_id);
}

/// A claim stays in flight until a response under the id of that very
/// claim is taken in: no other report ends its flight, and none puts a claim
/// in flight.
pub proof fn lemma_claim_stays_in_flight(
    before: Option<Seq<char>>,
    request_id: Seq<char>,
    taken_in: bool,
)
    ensures
        before is None ==> claim_after(before, request_id, taken_in) is None,
        before is Some && !(taken_in && before->0 == request_id) ==> claim_after(
            before,
            request_id,
            taken_in,
        ) == before,
        before == Some(request_id) ==> claim_after(before, request_id, true) is None,
{
}

} // verus!
