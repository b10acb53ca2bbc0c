//! Interactive verification: requests, short-authentication-string flows and
//! QR code flows.
//!
//! A flow is found by the other user and the id of the flow.  Every step asks
//! the flow for the message that the step sends; a flow that is in no state
//! for the step has no message, and the step returns nothing.

use vstd::prelude::*;
use matrix_sdk_crypto::matrix_sdk_qrcode::QrVerificationData;
use matrix_sdk_crypto::CryptoStoreError as InnerStoreError;
use matrix_sdk_crypto::Device as InnerDevice;
use matrix_sdk_crypto::OlmMachine as InnerMachine;
use matrix_sdk_crypto::OutgoingVerificationRequest as SdkVerificationRequest;
use matrix_sdk_crypto::OwnUserIdentity;
use matrix_sdk_crypto::QrVerification;
use matrix_sdk_crypto::Sas as InnerSas;
use matrix_sdk_crypto::ToDeviceRequest;
use matrix_sdk_crypto::UserIdentity as OtherUserIdentity;
use matrix_sdk_crypto::Verification as InnerVerification;
use matrix_sdk_crypto::VerificationRequest as InnerVerificationRequest;
use ruma::api::client::keys::upload_signatures::v3::Request as SignaturesRequest;
use ruma::events::key::verification::VerificationMethod;
use tokio::runtime::Runtime;
use crate::error::CryptoStoreError;
use crate::identifiers::check_event_id;
use crate::identifiers::check_room_id;
use crate::identifiers::event_id_valid;
use crate::identifiers::is_user_id;
use crate::identifiers::parse_user_id;
use crate::identifiers::refuses_user;
use crate::identifiers::room_id_valid;
use crate::identifiers::user_id_valid;
use crate::json::is_json;
use crate::machine::devices::lookup_device;
use crate::machine::devices::lookup_identity;
use crate::machine::devices::lookup_own_identity;
use crate::machine::OlmMachine;
use crate::requests::OutgoingVerificationRequest;
use crate::requests::SignatureUploadRequest;
use crate::users::identity_of;
use crate::users::Identity;
use crate::verification::flow_of;
use crate::verification::well_placed;
use crate::verification::ConfirmVerificationResult;
use crate::verification::Flow;
use crate::verification::flow_step;
use crate::verification::FlowStep;
use crate::verification::QrCode;
use crate::verification::RequestVerificationResult;
use crate::verification::Sas;
use crate::verification::ScanResult;
use crate::verification::StartSasResult;
use crate::verification::Verification;
use crate::verification::VerificationRequest;

verus! {

#[verifier::external_type_specification]
#[verifier::external_body]
pub struct ExQrVerificationData(QrVerificationData);

/// The bytes that a text stands for in base64, if it stands for any: what
/// `base64::decode_config` returns with `STANDARD_NO_PAD`, which reads a
/// text with its padding as well as without.
pub uninterp spec fn base64_decoded(text: Seq<char>) -> Option<Seq<u8>>;

/// The text that stands for bytes in base64 without padding: what
/// `base64::encode_config` returns with `STANDARD_NO_PAD`.
pub uninterp spec fn base64_encoded(bytes: Seq<u8>) -> Seq<char>;

/// Whether a text is base64 without padding: the text that stands for some
/// bytes.
pub open spec fn is_base64(text: Seq<char>) -> bool {
    exists|bytes: Seq<u8>| text == #[trigger] base64_encoded(bytes)
}

/// The text of a QR code whose data are these bytes, where there are any.
pub open spec fn qr_text_of(bytes: Option<Vec<u8>>) -> Option<Seq<char>> {
    match bytes {
        Some(bytes) => Some(base64_encoded(bytes@)),
        None => None,
    }
}

/// What a scan returns: the flow together with the message that tells the
/// other side, where the flow has such a message.
pub open spec fn scan_result_of(
    qr: QrCode,
    request: Option<OutgoingVerificationRequest>,
) -> Option<ScanResult> {
    match request {
        Some(request) => Some(ScanResult { qr, request }),
        None => None,
    }
}

/// Whether bytes are the data of a verification QR code: whether
/// `QrVerificationData::from_bytes` reads them.
pub uninterp spec fn is_qr_data(bytes: Seq<u8>) -> bool;

/// Whether a text is a scanned QR code: base64 of the data of a verification
/// QR code.
pub open spec fn is_qr_payload(text: Seq<char>) -> bool {
    base64_decoded(text) is Some && is_qr_data(base64_decoded(text)->0)
}

/// The emoji indices of a short authentication string as signed numbers.
pub open spec fn indices_of(emoji: Seq<u8>) -> Seq<i32> {
    emoji.map_values(|e: u8| e as i32)
}

/// Whether seven numbers are emoji indices: each below 64.
pub open spec fn are_emoji(emoji: Seq<u8>) -> bool {
    emoji.len() == 7 && forall|i: int| 0 <= i < 7 ==> #[trigger] emoji[i] < 64
}

/// Whether three numbers are the decimals of a short authentication string:
/// each from 1000 to 9191.
pub open spec fn are_decimals(decimals: (u16, u16, u16)) -> bool {
    &&& 1000 <= decimals.0 <= 9191
    &&& 1000 <= decimals.1 <= 9191
    &&& 1000 <= decimals.2 <= 9191
}

/// The three numbers of a short authentication string, in a row.
pub open spec fn decimals_of(decimals: (u16, u16, u16)) -> Seq<i32> {
    seq![decimals.0 as i32, decimals.1 as i32, decimals.2 as i32]
}

/// Calls `base64::decode_config` with `STANDARD_NO_PAD`.
#[verifier::external_body]
fn decode_base64(text: &str) -> (r: Option<Vec<u8>>)
    ensures
        r is Some <==> base64_decoded(text@) is Some,
        r is Some ==> r->0@ == base64_decoded(text@)->0,
{
    base64::decode_config(text, base64::STANDARD_NO_PAD).ok()
}

/// Calls `base64::encode_config` with `STANDARD_NO_PAD`.
#[verifier::external_body]
fn encode_base64(bytes: &Vec<u8>) -> (r: String)
    ensures
        r@ == base64_encoded(bytes@),
{
    base64::encode_config(bytes, base64::STANDARD_NO_PAD)
}

/// Calls `QrVerificationData::from_bytes`.
#[verifier::external_body]
fn parse_qr_data(bytes: &Vec<u8>) -> (r: Option<QrVerificationData>)
    ensures
        r is Some <==> is_qr_data(bytes@),
{
    QrVerificationData::from_bytes(bytes).ok()
}

/// Calls `OlmMachine::get_verification_request`.
#[verifier::external_body]
fn find_request(machine: &InnerMachine, user_id: &str, flow_id: &str) -> Option<
    InnerVerificationRequest,
>
    requires
        user_id_valid(user_id@),
{
    let user_id = <&ruma::UserId>::try_from(user_id).expect("a checked user id");
    machine.get_verification_request(user_id, flow_id)
}

/// Calls `OlmMachine::get_verification_requests`.
#[verifier::external_body]
fn find_requests(machine: &InnerMachine, user_id: &str) -> Vec<InnerVerificationRequest>
    requires
        user_id_valid(user_id@),
{
    let user_id = <&ruma::UserId>::try_from(user_id).expect("a checked user id");
    machine.get_verification_requests(user_id)
}

/// Calls `OlmMachine::get_verification`.
#[verifier::external_body]
fn find_flow(machine: &InnerMachine, user_id: &str, flow_id: &str) -> Option<InnerVerification>
    requires
        user_id_valid(user_id@),
{
    let user_id = <&ruma::UserId>::try_from(user_id).expect("a checked user id");
    machine.get_verification(user_id, flow_id)
}

/// Calls `VerificationRequest::accept_with_methods`.
#[verifier::external_body]
fn request_accept(request: &InnerVerificationRequest, methods: Vec<String>) -> Option<
    SdkVerificationRequest,
> {
    request.accept_with_methods(methods.into_iter().map(VerificationMethod::from).collect())
}

/// Calls `VerificationRequest::cancel`.
#[verifier::external_body]
fn request_cancel(request: &InnerVerificationRequest) -> Option<SdkVerificationRequest> {
    request.cancel()
}

/// Runs `VerificationRequest::generate_qr_code` to completion.
#[verifier::external_body]
fn request_generate_qr(runtime: &Runtime, request: &InnerVerificationRequest) -> Result<
    Option<QrVerification>,
    InnerStoreError,
> {
    runtime.block_on(request.generate_qr_code())
}

/// Runs `VerificationRequest::scan_qr_code` to completion.  A scan that the
/// request refuses gives nothing, as does a request that is in no state to be
/// scanned for.
#[verifier::external_body]
fn request_scan(
    runtime: &Runtime,
    request: &InnerVerificationRequest,
    data: QrVerificationData,
) -> Option<QrVerification> {
    runtime.block_on(request.scan_qr_code(data)).ok().flatten()
}

/// Runs `VerificationRequest::start_sas` to completion.
#[verifier::external_body]
fn request_start_sas(runtime: &Runtime, request: &InnerVerificationRequest) -> Result<
    Option<(InnerSas, SdkVerificationRequest)>,
    InnerStoreError,
> {
    runtime.block_on(request.start_sas())
}

/// Calls `Sas::accept`.
#[verifier::external_body]
fn sas_accept(sas: &InnerSas) -> Option<SdkVerificationRequest> {
    sas.accept()
}

/// Calls `Sas::cancel_with_code` with the cancel code that `code` names.
#[verifier::external_body]
fn sas_cancel(sas: &InnerSas, code: &str) -> Option<SdkVerificationRequest> {
    sas.cancel_with_code(code.into())
}

/// Calls `QrVerification::cancel_with_code` with the cancel code that `code`
/// names.
#[verifier::external_body]
fn qr_cancel(qr: &QrVerification, code: &str) -> Option<SdkVerificationRequest> {
    qr.cancel_with_code(code.into())
}

/// Runs `Sas::confirm` to completion.
#[verifier::external_body]
fn sas_confirm(runtime: &Runtime, sas: &InnerSas) -> Result<
    (Vec<SdkVerificationRequest>, Option<SignaturesRequest>),
    InnerStoreError,
> {
    runtime.block_on(sas.confirm())
}

/// Calls `QrVerification::confirm_scanning`.
#[verifier::external_body]
fn qr_confirm_scanning(qr: &QrVerification) -> Option<SdkVerificationRequest> {
    qr.confirm_scanning()
}

/// Calls `QrVerification::reciprocate`.
#[verifier::external_body]
fn qr_reciprocate(qr: &QrVerification) -> Option<SdkVerificationRequest> {
    qr.reciprocate()
}

/// Calls `QrVerification::to_bytes`; a code that cannot be encoded gives
/// nothing.
#[verifier::external_body]
fn qr_bytes(qr: &QrVerification) -> Option<Vec<u8>> {
    qr.to_bytes().ok()
}

/// Calls `Sas::emoji_index`.  Trusted: each index is one of the 64 emoji,
/// being six bits of the short authentication string.
#[verifier::external_body]
fn sas_emoji_index(sas: &InnerSas) -> (r: Option<[u8; 7]>)
    ensures
        r is Some ==> are_emoji(r->0@),
{
    sas.emoji_index()
}

/// Calls `Sas::decimals`.  Trusted: each number is 1000 more than thirteen
/// bits of the short authentication string.
#[verifier::external_body]
fn sas_decimals(sas: &InnerSas) -> (r: Option<(u16, u16, u16)>)
    ensures
        r is Some ==> are_decimals(r->0),
{
    sas.decimals()
}

/// Runs `UserIdentity::verification_request_content` to completion with the
/// methods of the list, and writes the content as JSON.
#[verifier::external_body]
fn identity_request_content(
    runtime: &Runtime,
    identity: &OtherUserIdentity,
    methods: Vec<String>,
) -> (r: Result<String, serde_json::Error>)
    ensures
        r is Ok ==> is_json(r->Ok_0@),
{
    let methods = methods.into_iter().map(VerificationMethod::from).collect();
    serde_json::to_string(&runtime.block_on(identity.verification_request_content(Some(methods))))
}

/// Runs `UserIdentity::request_verification` to completion with the methods
/// of the list.
#[verifier::external_body]
fn identity_request_verification(
    runtime: &Runtime,
    identity: &OtherUserIdentity,
    room_id: &str,
    event_id: &str,
    methods: Vec<String>,
) -> InnerVerificationRequest
    requires
        room_id_valid(room_id@),
        event_id_valid(event_id@),
{
    let room_id = <&ruma::RoomId>::try_from(room_id).expect("a checked room id");
    let event_id = <&ruma::EventId>::try_from(event_id).expect("a checked event id");
    let methods = methods.into_iter().map(VerificationMethod::from).collect();
    runtime.block_on(identity.request_verification(room_id, event_id, Some(methods)))
}

/// Runs `Device::request_verification_with_methods` to completion.
#[verifier::external_body]
fn device_request_verification(
    runtime: &Runtime,
    device: &InnerDevice,
    methods: Vec<String>,
) -> (InnerVerificationRequest, SdkVerificationRequest) {
    let methods = methods.into_iter().map(VerificationMethod::from).collect();
    runtime.block_on(device.request_verification_with_methods(methods))
}

/// Runs `OwnUserIdentity::request_verification_with_methods` to completion.
#[verifier::external_body]
fn own_request_verification(
    runtime: &Runtime,
    identity: &OwnUserIdentity,
    methods: Vec<String>,
) -> Result<(InnerVerificationRequest, SdkVerificationRequest), InnerStoreError> {
    let methods = methods.into_iter().map(VerificationMethod::from).collect();
    runtime.block_on(identity.request_verification_with_methods(methods))
}

/// Runs `Device::start_verification` to completion.  The call aborts on a
/// first message that is one for a room; the flow that it starts has a
/// transaction of its own and no room, so its first message is one for
/// devices.
#[verifier::external_body]
fn device_start_sas(runtime: &Runtime, device: &InnerDevice) -> Result<
    (InnerSas, ToDeviceRequest),
    InnerStoreError,
> {
    runtime.block_on(device.start_verification())
}

/// Whether the message that a step hands out, where it hands one out, is
/// well formed.
pub open spec fn sends_well_formed(
    r: Result<Option<OutgoingVerificationRequest>, CryptoStoreError>,
) -> bool {
    r is Ok && r->Ok_0 is Some ==> r->Ok_0->0.well_formed()
}

/// Whether every message of the list is well formed.
pub open spec fn messages_well_formed(messages: Seq<OutgoingVerificationRequest>) -> bool {
    forall|k: int| 0 <= k < messages.len() ==> (#[trigger] messages[k]).well_formed()
}

/// The plain form of a message that a step may have asked to send.
fn outgoing(request: Option<SdkVerificationRequest>) -> (r: Result<
    Option<OutgoingVerificationRequest>,
    CryptoStoreError,
>)
    ensures
        request is None ==> r == Ok::<Option<OutgoingVerificationRequest>, CryptoStoreError>(None),
        request is Some ==> (r is Ok && r->Ok_0 is Some) || (r is Err && r->Err_0
            is Serialization),
        sends_well_formed(r),
{
    match request {
        Some(request) => match OutgoingVerificationRequest::from_verification(&request) {
            Ok(r) => Ok(Some(r)),
            Err(e) => Err(CryptoStoreError::Serialization(e)),
        },
        None => Ok(None),
    }
}

/// Cancels a verification request, unless the snapshot shows it to be over:
/// what is done or cancelled is not cancelled again, and has no message.
fn cancel_request(request: &InnerVerificationRequest, snapshot: &VerificationRequest) -> (r: Result<
    Option<OutgoingVerificationRequest>,
    CryptoStoreError,
>)
    ensures
        snapshot.over() ==> r is Ok && r->Ok_0 is None,
        r is Err ==> r->Err_0 is Serialization,
        sends_well_formed(r),
{
    match flow_step(snapshot.is_over()) {
        FlowStep::NotActive => Ok(None),
        FlowStep::Proceed => outgoing(request_cancel(request)),
    }
}

/// Cancels a short-authentication-string flow with a cancel code, unless the
/// snapshot shows it to be over.
fn cancel_sas(sas: &InnerSas, snapshot: &Sas, cancel_code: &str) -> (r: Result<
    Option<OutgoingVerificationRequest>,
    CryptoStoreError,
>)
    ensures
        snapshot.over() ==> r is Ok && r->Ok_0 is None,
        r is Err ==> r->Err_0 is Serialization,
        sends_well_formed(r),
{
    match flow_step(snapshot.is_over()) {
        FlowStep::NotActive => Ok(None),
        FlowStep::Proceed => outgoing(sas_cancel(sas, cancel_code)),
    }
}

/// Cancels a QR code flow with a cancel code, unless the snapshot shows it
/// to be over.
fn cancel_qr(qr: &QrVerification, snapshot: &QrCode, cancel_code: &str) -> (r: Result<
    Option<OutgoingVerificationRequest>,
    CryptoStoreError,
>)
    ensures
        snapshot.over() ==> r is Ok && r->Ok_0 is None,
        r is Err ==> r->Err_0 is Serialization,
        sends_well_formed(r),
{
    match flow_step(snapshot.is_over()) {
        FlowStep::NotActive => Ok(None),
        FlowStep::Proceed => outgoing(qr_cancel(qr, cancel_code)),
    }
}

/// The plain forms of the messages of a list, in the order of the list.
fn outgoing_list(requests: &Vec<SdkVerificationRequest>) -> (r: Result<
    Vec<OutgoingVerificationRequest>,
    CryptoStoreError,
>)
    ensures
        r is Ok ==> r->Ok_0@.len() == requests@.len(),
        r is Ok ==> messages_well_formed(r->Ok_0@),
        r is Err ==> r->Err_0 is Serialization,
{
    let mut out: Vec<OutgoingVerificationRequest> = Vec::new();
    let mut i: usize = 0;
    while i < requests.len()
        invariant
            0 <= i <= requests.len(),
            out@.len() == i,
            messages_well_formed(out@),
        decreases requests.len() - i,
    {
        match OutgoingVerificationRequest::from_verification(&requests[i]) {
            Ok(r) => out.push(r),
            Err(e) => { return Err(CryptoStoreError::Serialization(e)); },
        }
        i += 1;
    }
    Ok(out)
}

/// The plain form of a request that was made together with its message.
fn requested(request: &InnerVerificationRequest, message: &SdkVerificationRequest) -> (r: Result<
    Option<RequestVerificationResult>,
    CryptoStoreError,
>)
    ensures
        r is Ok ==> r->Ok_0 is Some && r->Ok_0->0.request.well_formed(),
        r is Err ==> r->Err_0 is Serialization,
{
    match OutgoingVerificationRequest::from_verification(message) {
        Ok(message) => Ok(
            Some(
                RequestVerificationResult {
                    verification: VerificationRequest::from_inner(request),
                    request: message,
                },
            ),
        ),
        Err(e) => Err(CryptoStoreError::Serialization(e)),
    }
}

/// The snapshots of a list of requests, in the order of the list.
fn request_snapshots(requests: &Vec<InnerVerificationRequest>) -> (r: Vec<VerificationRequest>)
    ensures
        r@.len() == requests@.len(),
        forall|k: int|
            0 <= k < r@.len() ==> well_placed((#[trigger] r@[k]).other_user_id, r@[k].room_id),
{
    let mut out: Vec<VerificationRequest> = Vec::new();
    let mut i: usize = 0;
    while i < requests.len()
        invariant
            0 <= i <= requests.len(),
            out@.len() == i,
            forall|k: int|
                0 <= k < out@.len() ==> well_placed(
                    (#[trigger] out@[k]).other_user_id,
                    out@[k].room_id,
                ),
        decreases requests.len() - i,
    {
        out.push(VerificationRequest::from_inner(&requests[i]));
        i += 1;
    }
    out
}

/// The emoji indices of a short authentication string as signed numbers, in
/// their order.
pub fn emoji_indices(emoji: [u8; 7]) -> (r: Vec<i32>)
    ensures
        r@ == indices_of(emoji@),
{
    let mut out: Vec<i32> = Vec::new();
    let mut i: usize = 0;
    while i < 7
        invariant
            0 <= i <= 7,
            out@ == indices_of(emoji@.take(i as int)),
        decreases 7 - i,
    {
        let index: u8 = emoji[i];
        out.push(index as i32);
        proof {
            assert(emoji@.take(i as int + 1) =~= emoji@.take(i as int).push(emoji@[i as int]));
            assert(out@ =~= indices_of(emoji@.take(i as int + 1)));
        }
        i += 1;
    }
    proof {
        assert(emoji@.take(7) =~= emoji@);
    }
    out
}

/// The three numbers of a short authentication string, in a row.
pub fn decimal_list(decimals: (u16, u16, u16)) -> (r: Vec<i32>)
    ensures
        r@ == decimals_of(decimals),
{
    let mut out: Vec<i32> = Vec::new();
    out.push(decimals.0 as i32);
    out.push(decimals.1 as i32);
    out.push(decimals.2 as i32);
    proof {
        assert(out@ =~= decimals_of(decimals));
    }
    out
}

/// The data of a QR code as text: base64 without padding.
pub fn qr_text(bytes: Option<Vec<u8>>) -> (r: Option<String>)
    ensures
        r is Some <==> bytes is Some,
        r is Some ==> Some(r->0@) == qr_text_of(bytes) && is_base64(r->0@),
{
    match bytes {
        Some(bytes) => {
            let text = encode_base64(&bytes);
            assert(text@ == base64_encoded(bytes@));
            Some(text)
        },
        None => None,
    }
}

impl ScanResult {
    /// The result of a scan: the flow that the scan made, with the message
    /// that tells the other side; nothing where the flow has no message.
    pub fn from_parts(qr: QrCode, request: Option<OutgoingVerificationRequest>) -> (r: Option<
        ScanResult,
    >)
        ensures
            r == scan_result_of(qr, request),
    {
        match request {
            Some(request) => Some(ScanResult { qr, request }),
            None => None,
        }
    }

    /// The result of handing a scanned code to a request: nothing where
    /// the request refused the code, so that no flow came of it, and else
    /// the flow with the message that tells the other side.
    pub fn of_scan(scanned: Option<QrCode>, request: Option<OutgoingVerificationRequest>) -> (r:
        Option<ScanResult>)
        ensures
            scanned is None ==> r is None,
            scanned is Some ==> r == scan_result_of(scanned->0, request),
    {
        match scanned {
            Some(qr) => ScanResult::from_parts(qr, request),
            None => None,
        }
    }
}

/// Reads a scanned QR code: base64, then the data of a verification QR
/// code.  No flow is touched.
pub fn qr_payload(data: &str) -> (r: Option<QrVerificationData>)
    ensures
        r is Some <==> is_qr_payload(data@),
{
    match decode_base64(data) {
        Some(bytes) => parse_qr_data(&bytes),
        None => None,
    }
}

impl OlmMachine {
    /// The verification requests that we share with a user.  For a string
    /// that is no user identifier there are none.
    pub fn get_verification_requests(&self, user_id: &str) -> (r: Vec<VerificationRequest>)
        ensures
            forall|k: int|
                0 <= k < r@.len() ==> well_placed(
                    (#[trigger] r@[k]).other_user_id,
                    r@[k].room_id,
                ),
            !user_id_valid(user_id@) ==> r@.len() == 0,
    {
        if !is_user_id(user_id) {
            return Vec::new();
        }
        request_snapshots(&find_requests(self.inner(), user_id))
    }

    /// The verification request that we share with a user under a flow id,
    /// if there is one.
    pub fn get_verification_request(&self, user_id: &str, flow_id: &str) -> (r: Option<
        VerificationRequest,
    >)
        ensures
            r is Some ==> well_placed(r->0.other_user_id, r->0.room_id),
            !user_id_valid(user_id@) ==> r is None,
    {
        if !is_user_id(user_id) {
            return None;
        }
        match find_request(self.inner(), user_id, flow_id) {
            Some(request) => Some(VerificationRequest::from_inner(&request)),
            None => None,
        }
    }

    /// Accepts a verification request, which makes it ready, and offers
    /// `methods` as the methods that we support.  The message that comes back
    /// tells the other side.
    ///
    /// Nothing comes back where no such request is there, or where it is in
    /// no state to be accepted.
    pub fn accept_verification_request(
        &mut self,
        user_id: &str,
        flow_id: &str,
        methods: Vec<String>,
    ) -> (r: Result<Option<OutgoingVerificationRequest>, CryptoStoreError>)
        ensures
            final(self).handed_out_since(old(self)),
            r matches Ok(Some(message)) ==> final(self).was_issued(message.id()),
            sends_well_formed(r),
            !user_id_valid(user_id@) ==> r is Ok && r->Ok_0 is None,
            r is Err ==> r->Err_0 is Serialization,
    {
        if !is_user_id(user_id) {
            return Ok(None);
        }
        let outcome = match find_request(self.inner(), user_id, flow_id) {
            Some(request) => outgoing(request_accept(&request, methods)),
            None => Ok(None),
        };
        self.issue_message_of(&outcome);
        outcome
    }

    /// The content of an `m.key.verification.request` event for a user, as
    /// JSON; nothing where no identity of another user is known under the id.
    pub fn verification_request_content(&self, user_id: &str, methods: Vec<String>) -> (r: Result<
        Option<String>,
        CryptoStoreError,
    >)
        ensures
            r is Ok && r->Ok_0 is Some ==> is_json(r->Ok_0->0@),
            !user_id_valid(user_id@) ==> refuses_user(r, user_id@),
            user_id_valid(user_id@) && r is Err ==> r->Err_0 is CryptoStore || r->Err_0
                is Serialization,
    {
        match parse_user_id(user_id) {
            Ok(()) => {},
            Err(e) => { return Err(e); },
        }
        let identity = match lookup_identity(&self.runtime, self.inner(), user_id) {
            Ok(identity) => identity,
            Err(e) => { return Err(CryptoStoreError::CryptoStore(e)); },
        };
        match identity {
            Some(identity) => match identity_of(identity) {
                Identity::Other(i) => match identity_request_content(&self.runtime, &i, methods) {
                    Ok(content) => Ok(Some(content)),
                    Err(e) => Err(CryptoStoreError::Serialization(e)),
                },
                Identity::Own(_) => Ok(None),
            },
            None => Ok(None),
        }
    }

    /// Begins a verification with a user in a room, after the event that
    /// requests it was sent there.
    ///
    /// `event_id` is the id of that event, whose content
    /// `verification_request_content` made, and `methods` the methods that
    /// it offered.  Nothing comes back where no identity of another user is
    /// known under the id.
    pub fn request_verification(
        &self,
        user_id: &str,
        room_id: &str,
        event_id: &str,
        methods: Vec<String>,
    ) -> (r: Result<Option<VerificationRequest>, CryptoStoreError>)
        ensures
            r is Ok && r->Ok_0 is Some ==> well_placed(
                r->Ok_0->0.other_user_id,
                r->Ok_0->0.room_id,
            ),
            !user_id_valid(user_id@) ==> refuses_user(r, user_id@),
            user_id_valid(user_id@) && !(event_id_valid(event_id@) && room_id_valid(room_id@))
                ==> r is Err && r->Err_0 is Identifier,
            user_id_valid(user_id@) && event_id_valid(event_id@) && room_id_valid(room_id@)
                && r is Err ==> r->Err_0 is CryptoStore,
    {
        match parse_user_id(user_id) {
            Ok(()) => {},
            Err(e) => { return Err(e); },
        }
        match check_event_id(event_id) {
            Ok(()) => {},
            Err(e) => { return Err(CryptoStoreError::Identifier(e)); },
        }
        match check_room_id(room_id) {
            Ok(()) => {},
            Err(e) => { return Err(CryptoStoreError::Identifier(e)); },
        }
        let identity = match lookup_identity(&self.runtime, self.inner(), user_id) {
            Ok(identity) => identity,
            Err(e) => { return Err(CryptoStoreError::CryptoStore(e)); },
        };
        match identity {
            Some(identity) => match identity_of(identity) {
                Identity::Other(i) => {
                    let request = identity_request_verification(
                        &self.runtime,
                        &i,
                        room_id,
                        event_id,
                        methods,
                    );
                    Ok(Some(VerificationRequest::from_inner(&request)))
                },
                Identity::Own(_) => Ok(None),
            },
            None => Ok(None),
        }
    }

    /// Requests a verification with a device of a user.  Nothing comes back
    /// where the device is not known.
    pub fn request_verification_with_device(
        &mut self,
        user_id: &str,
        device_id: &str,
        methods: Vec<String>,
    ) -> (r: Result<Option<RequestVerificationResult>, CryptoStoreError>)
        ensures
            final(self).handed_out_since(old(self)),
            r matches Ok(Some(result)) ==> final(self).was_issued(result.request.id()),
            r is Ok && r->Ok_0 is Some ==> r->Ok_0->0.request.well_formed(),
            !user_id_valid(user_id@) ==> refuses_user(r, user_id@),
            user_id_valid(user_id@) && r is Err ==> r->Err_0 is CryptoStore || r->Err_0
                is Serialization,
    {
        match parse_user_id(user_id) {
            Ok(()) => {},
            Err(e) => { return Err(e); },
        }
        let outcome = match lookup_device(&self.runtime, self.inner(), user_id, device_id) {
            Ok(Some(device)) => {
                let (request, message) = device_request_verification(
                    &self.runtime,
                    &device,
                    methods,
                );
                requested(&request, &message)
            },
            Ok(None) => Ok(None),
            Err(e) => Err(CryptoStoreError::CryptoStore(e)),
        };
        match &outcome {
            Ok(Some(result)) => self.issue(result.request.request_id().as_str()),
            _ => {},
        }
        outcome
    }

    /// Requests a verification with our other devices.  Nothing comes back
    /// where we have no identity of our own.
    pub fn request_self_verification(&mut self, methods: Vec<String>) -> (r: Result<
        Option<RequestVerificationResult>,
        CryptoStoreError,
    >)
        ensures
            final(self).handed_out_since(old(self)),
            r matches Ok(Some(result)) ==> final(self).was_issued(result.request.id()),
            r is Ok && r->Ok_0 is Some ==> r->Ok_0->0.request.well_formed(),
            r is Err ==> r->Err_0 is CryptoStore || r->Err_0 is Serialization,
    {
        let identity = match lookup_own_identity(&self.runtime, self.inner()) {
            Ok(identity) => identity,
            Err(e) => { return Err(CryptoStoreError::CryptoStore(e)); },
        };
        let outcome = match identity {
            Some(identity) => match identity_of(identity) {
                Identity::Own(i) => match own_request_verification(&self.runtime, &i, methods) {
                    Ok((request, message)) => requested(&request, &message),
                    Err(e) => Err(CryptoStoreError::CryptoStore(e)),
                },
                Identity::Other(_) => Ok(None),
            },
            None => Ok(None),
        };
        match &outcome {
            Ok(Some(result)) => self.issue(result.request.request_id().as_str()),
            _ => {},
        }
        outcome
    }

    /// Notes that the message of an outcome was handed out, where it has
    /// one.
    fn issue_message_of(
        &mut self,
        outcome: &Result<Option<OutgoingVerificationRequest>, CryptoStoreError>,
    )
        ensures
            final(self).handed_out_since(old(self)),
            *outcome matches Ok(Some(message)) ==> final(self).was_issued(message.id()),
            final(self).held_machine() == old(self).held_machine(),
    {
        match outcome {
            Ok(message) => self.issue_message(message),
            Err(_) => {},
        }
    }

    /// The flow that we share with a user under a flow id, if there is one.
    pub fn get_verification(&self, user_id: &str, flow_id: &str) -> (r: Option<Verification>)
        ensures
            r is Some ==> r->0.well_formed(),
            !user_id_valid(user_id@) ==> r is None,
    {
        if !is_user_id(user_id) {
            return None;
        }
        match find_flow(self.inner(), user_id, flow_id) {
            Some(flow) => Verification::from_inner(flow),
            None => None,
        }
    }

    /// Cancels a verification, and hands back the message that tells the
    /// other side.
    ///
    /// A verification request under the flow id is cancelled as cancelled by
    /// the user; only where there is no request, the flow under the id is
    /// cancelled with `cancel_code`, which for a cancellation by hand is
    /// `m.user`.  What is over already, by success or by a cancellation from
    /// either side, is not cancelled again: nothing comes back then.  A
    /// flow that was cancelled through this machine is on its record, and a
    /// second attempt ends there, without a message and without a change.
    pub fn cancel_verification(&mut self, user_id: &str, flow_id: &str, cancel_code: &str) -> (r: Result<
        Option<OutgoingVerificationRequest>,
        CryptoStoreError,
    >)
        ensures
            final(self).acknowledged() == old(self).acknowledged(),
            final(self).claim_in_flight() == old(self).claim_in_flight(),
            forall|id: Seq<char>| old(self).was_issued(id) ==> final(self).was_issued(id),
            forall|user: Seq<char>, flow: Seq<char>|
                old(self).was_cancelled(user, flow) ==> final(self).was_cancelled(user, flow),
            old(self).was_cancelled(user_id@, flow_id@) ==> r is Ok && r->Ok_0 is None
                && final(self).issued() == old(self).issued() && final(self).cancelled()
                == old(self).cancelled(),
            r matches Ok(Some(message)) ==> final(self).was_issued(message.id())
                && final(self).was_cancelled(user_id@, flow_id@),
            sends_well_formed(r),
            !user_id_valid(user_id@) ==> r is Ok && r->Ok_0 is None,
            r is Err ==> r->Err_0 is Serialization,
    {
        if !is_user_id(user_id) || self.is_cancelled(user_id, flow_id) {
            return Ok(None);
        }
        let outcome = match find_request(self.inner(), user_id, flow_id) {
            Some(request) => cancel_request(&request, &VerificationRequest::from_inner(&request)),
            None => match find_flow(self.inner(), user_id, flow_id) {
                Some(flow) => match flow_of(flow) {
                    Flow::Sas(sas) => cancel_sas(&sas, &Sas::from_inner(&sas), cancel_code),
                    Flow::Qr(qr) => cancel_qr(&qr, &QrCode::from_inner(&qr), cancel_code),
                    Flow::Other => Ok(None),
                },
                None => Ok(None),
            },
        };
        match &outcome {
            Ok(Some(message)) => {
                self.issue(message.request_id().as_str());
                self.note_cancelled(user_id, flow_id);
            },
            _ => {},
        }
        outcome
    }

    /// Confirms a verification: that the short strings match, or that the
    /// other side scanned our QR code.
    ///
    /// Nothing comes back where no such flow is there, or where the flow is
    /// in no state to be confirmed.  A flow that is over, done or cancelled
    /// by either side, is not so much as asked: `flow_step` decides.
    pub fn confirm_verification(&mut self, user_id: &str, flow_id: &str) -> (r: Result<
        Option<ConfirmVerificationResult>,
        CryptoStoreError,
    >)
        ensures
            final(self).handed_out_since(old(self)),
            r matches Ok(Some(result)) ==> forall|k: int|
                0 <= k < result.requests@.len() ==> final(self).was_issued(
                    #[trigger] result.requests@[k].id(),
                ),
            r is Ok && r->Ok_0 is Some ==> r->Ok_0->0.well_formed(),
            !user_id_valid(user_id@) ==> refuses_user(r, user_id@),
            user_id_valid(user_id@) && r is Err ==> r->Err_0 is CryptoStore || r->Err_0
                is Serialization,
            r is Ok && r->Ok_0 is Some ==> r->Ok_0->0.requests@.len() > 0,
    {
        match parse_user_id(user_id) {
            Ok(()) => {},
            Err(e) => { return Err(e); },
        }
        let flow = match find_flow(self.inner(), user_id, flow_id) {
            Some(flow) => flow,
            None => { return Ok(None); },
        };
        let outcome = match flow_of(flow) {
            Flow::Sas(sas) => {
                match flow_step(Sas::from_inner(&sas).is_over()) {
                    FlowStep::NotActive => { return Ok(None); },
                    FlowStep::Proceed => {},
                }
                let (requests, signatures) = match sas_confirm(&self.runtime, &sas) {
                    Ok(parts) => parts,
                    Err(e) => { return Err(CryptoStoreError::CryptoStore(e)); },
                };
                let requests = match outgoing_list(&requests) {
                    Ok(requests) => requests,
                    Err(e) => { return Err(e); },
                };
                let signature_request = match signatures {
                    Some(upload) => match SignatureUploadRequest::from_upload(&upload) {
                        Ok(r) => Some(r),
                        Err(e) => { return Err(CryptoStoreError::Serialization(e)); },
                    },
                    None => None,
                };
                Ok(ConfirmVerificationResult::from_parts(requests, signature_request))
            },
            Flow::Qr(qr) => match flow_step(QrCode::from_inner(&qr).is_over()) {
                FlowStep::NotActive => Ok(None),
                FlowStep::Proceed => match outgoing(qr_confirm_scanning(&qr)) {
                    Ok(request) => Ok(ConfirmVerificationResult::from_scan_confirmation(request)),
                    Err(e) => Err(e),
                },
            },
            Flow::Other => Ok(None),
        };
        match &outcome {
            Ok(Some(result)) => self.issue_messages(&result.requests),
            _ => {},
        }
        outcome
    }

    /// Turns a verification request into a QR code flow in which we show the
    /// code.  Nothing comes back where no such request is there, or where it
    /// cannot become such a flow.
    pub fn start_qr_verification(&self, user_id: &str, flow_id: &str) -> (r: Result<
        Option<QrCode>,
        CryptoStoreError,
    >)
        ensures
            r is Ok && r->Ok_0 is Some ==> well_placed(
                r->Ok_0->0.other_user_id,
                r->Ok_0->0.room_id,
            ),
            !user_id_valid(user_id@) ==> refuses_user(r, user_id@),
            user_id_valid(user_id@) && r is Err ==> r->Err_0 is CryptoStore,
    {
        match parse_user_id(user_id) {
            Ok(()) => {},
            Err(e) => { return Err(e); },
        }
        match find_request(self.inner(), user_id, flow_id) {
            Some(request) => match request_generate_qr(&self.runtime, &request) {
                Ok(Some(qr)) => Ok(Some(QrCode::from_inner(&qr))),
                Ok(None) => Ok(None),
                Err(e) => Err(CryptoStoreError::CryptoStore(e)),
            },
            None => Ok(None),
        }
    }

    /// The data of the QR code of a flow, in base64 without padding: what
    /// has to be decoded and drawn as a QR code.
    ///
    /// Nothing comes back unless `start_qr_verification` made the flow a QR
    /// code flow before.
    pub fn generate_qr_code(&self, user_id: &str, flow_id: &str) -> (r: Option<String>)
        ensures
            !user_id_valid(user_id@) ==> r is None,
            r is Some ==> is_base64(r->0@),
    {
        if !is_user_id(user_id) {
            return None;
        }
        match find_flow(self.inner(), user_id, flow_id) {
            Some(flow) => match flow_of(flow) {
                Flow::Qr(qr) => qr_text(qr_bytes(&qr)),
                _ => None,
            },
            None => None,
        }
    }

    /// Hands a scanned QR code to a verification request, which turns it
    /// into a QR code flow, and tells the other side that we scanned.
    ///
    /// `data` is what the QR code held, in base64 without padding.  Where it
    /// is no such thing, nothing comes back, and no request is so much as
    /// looked up.  Nothing comes back either where no such request is there,
    /// or where the request refuses the code.
    pub fn scan_qr_code(&mut self, user_id: &str, flow_id: &str, data: &str) -> (r: Result<
        Option<ScanResult>,
        CryptoStoreError,
    >)
        ensures
            final(self).handed_out_since(old(self)),
            r matches Ok(Some(result)) ==> final(self).was_issued(result.request.id()),
            r is Ok && r->Ok_0 is Some ==> r->Ok_0->0.request.well_formed(),
            !user_id_valid(user_id@) ==> r is Ok && r->Ok_0 is None,
            !is_qr_payload(data@) ==> r is Ok && r->Ok_0 is None,
            r is Err ==> r->Err_0 is Serialization,
            !(r matches Ok(Some(_))) ==> final(self).issued() == old(self).issued(),
    {
        if !is_user_id(user_id) {
            return Ok(None);
        }
        let data = match qr_payload(data) {
            Some(data) => data,
            None => { return Ok(None); },
        };
        let request = match find_request(self.inner(), user_id, flow_id) {
            Some(request) => request,
            None => { return Ok(None); },
        };
        let outcome = match request_scan(&self.runtime, &request, data) {
            Some(qr) => match outgoing(qr_reciprocate(&qr)) {
                Ok(request) => Ok(ScanResult::of_scan(Some(QrCode::from_inner(&qr)), request)),
                Err(e) => Err(e),
            },
            None => Ok(ScanResult::of_scan(None, None)),
        };
        match &outcome {
            Ok(Some(result)) => self.issue(result.request.request_id().as_str()),
            _ => {},
        }
        outcome
    }

    /// Turns a verification request into a short-authentication-string flow.
    /// Nothing comes back where no such request is there, or where it cannot
    /// become such a flow.
    pub fn start_sas_verification(&mut self, user_id: &str, flow_id: &str) -> (r: Result<
        Option<StartSasResult>,
        CryptoStoreError,
    >)
        ensures
            final(self).handed_out_since(old(self)),
            r matches Ok(Some(result)) ==> final(self).was_issued(result.request.id()),
            r is Ok && r->Ok_0 is Some ==> r->Ok_0->0.request.well_formed(),
            !user_id_valid(user_id@) ==> refuses_user(r, user_id@),
            user_id_valid(user_id@) && r is Err ==> r->Err_0 is CryptoStore || r->Err_0
                is Serialization,
    {
        match parse_user_id(user_id) {
            Ok(()) => {},
            Err(e) => { return Err(e); },
        }
        let request = match find_request(self.inner(), user_id, flow_id) {
            Some(request) => request,
            None => { return Ok(None); },
        };
        let outcome = match request_start_sas(&self.runtime, &request) {
            Ok(Some((sas, message))) => match OutgoingVerificationRequest::from_verification(
                &message,
            ) {
                Ok(request) => Ok(Some(StartSasResult { sas: Sas::from_inner(&sas), request })),
                Err(e) => Err(CryptoStoreError::Serialization(e)),
            },
            Ok(None) => Ok(None),
            Err(e) => Err(CryptoStoreError::CryptoStore(e)),
        };
        match &outcome {
            Ok(Some(result)) => self.issue(result.request.request_id().as_str()),
            _ => {},
        }
        outcome
    }

    /// Starts a short-authentication-string flow with a device, without a
    /// verification request before it.  Nothing comes back where the device
    /// is not known.
    ///
    /// `request_verification_with_device` is the way that is preferred.
    pub fn start_sas_with_device(&mut self, user_id: &str, device_id: &str) -> (r: Result<
        Option<StartSasResult>,
        CryptoStoreError,
    >)
        ensures
            final(self).handed_out_since(old(self)),
            r matches Ok(Some(result)) ==> final(self).was_issued(result.request.id()),
            r is Ok && r->Ok_0 is Some ==> r->Ok_0->0.request.well_formed(),
            !user_id_valid(user_id@) ==> refuses_user(r, user_id@),
            user_id_valid(user_id@) && r is Err ==> r->Err_0 is CryptoStore || r->Err_0
                is Serialization,
    {
        match parse_user_id(user_id) {
            Ok(()) => {},
            Err(e) => { return Err(e); },
        }
        let device = match lookup_device(&self.runtime, self.inner(), user_id, device_id) {
            Ok(Some(device)) => device,
            Ok(None) => { return Ok(None); },
            Err(e) => { return Err(CryptoStoreError::CryptoStore(e)); },
        };
        let outcome = match device_start_sas(&self.runtime, &device) {
            Ok((sas, message)) => match OutgoingVerificationRequest::from_to_device(&message) {
                Ok(request) => Ok(Some(StartSasResult { sas: Sas::from_inner(&sas), request })),
                Err(e) => Err(CryptoStoreError::Serialization(e)),
            },
            Err(e) => Err(CryptoStoreError::CryptoStore(e)),
        };
        match &outcome {
            Ok(Some(result)) => self.issue(result.request.request_id().as_str()),
            _ => {},
        }
        outcome
    }

    /// Accepts a short-authentication-string flow that the other side
    /// started.  Nothing comes back where no such flow is there, or where it
    /// was accepted already.
    pub fn accept_sas_verification(&mut self, user_id: &str, flow_id: &str) -> (r: Result<
        Option<OutgoingVerificationRequest>,
        CryptoStoreError,
    >)
        ensures
            final(self).handed_out_since(old(self)),
            r matches Ok(Some(message)) ==> final(self).was_issued(message.id()),
            sends_well_formed(r),
            !user_id_valid(user_id@) ==> r is Ok && r->Ok_0 is None,
            r is Err ==> r->Err_0 is Serialization,
    {
        if !is_user_id(user_id) {
            return Ok(None);
        }
        let outcome = match find_flow(self.inner(), user_id, flow_id) {
            Some(flow) => match flow_of(flow) {
                Flow::Sas(sas) => outgoing(sas_accept(&sas)),
                _ => Ok(None),
            },
            None => Ok(None),
        };
        self.issue_message_of(&outcome);
        outcome
    }

    /// The short authentication string of a flow as seven emoji indices.
    /// Nothing comes back unless the flow is one of short authentication
    /// strings and can present its string.
    pub fn get_emoji_index(&self, user_id: &str, flow_id: &str) -> (r: Option<Vec<i32>>)
        ensures
            !user_id_valid(user_id@) ==> r is None,
            r is Some ==> r->0@.len() == 7 && forall|i: int|
                0 <= i < 7 ==> 0 <= #[trigger] r->0@[i] < 64,
    {
        if !is_user_id(user_id) {
            return None;
        }
        match find_flow(self.inner(), user_id, flow_id) {
            Some(flow) => match flow_of(flow) {
                Flow::Sas(sas) => match sas_emoji_index(&sas) {
                    Some(emoji) => Some(emoji_indices(emoji)),
                    None => None,
                },
                _ => None,
            },
            None => None,
        }
    }

    /// The short authentication string of a flow as three numbers.  Nothing
    /// comes back unless the flow is one of short authentication strings and
    /// can present its string.
    pub fn get_decimals(&self, user_id: &str, flow_id: &str) -> (r: Option<Vec<i32>>)
        ensures
            !user_id_valid(user_id@) ==> r is None,
            r is Some ==> r->0@.len() == 3 && forall|i: int|
                0 <= i < 3 ==> 1000 <= #[trigger] r->0@[i] <= 9191,
    {
        if !is_user_id(user_id) {
            return None;
        }
        match find_flow(self.inner(), user_id, flow_id) {
            Some(flow) => match flow_of(flow) {
                Flow::Sas(sas) => match sas_decimals(&sas) {
                    Some(decimals) => Some(decimal_list(decimals)),
                    None => None,
                },
                _ => None,
            },
            None => None,
        }
    }
}

} // verus!
