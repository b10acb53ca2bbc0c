//! Interactive verification as its caller sees it.
//!
//! A flow lives inside the state machine.  What this module hands out are
//! snapshots: plain records of where a flow stood when it was read.

use vstd::prelude::*;
use matrix_sdk_crypto::CancelInfo as InnerCancelInfo;
use matrix_sdk_crypto::QrVerification;
use matrix_sdk_crypto::Sas as InnerSas;
use matrix_sdk_crypto::Verification as InnerVerification;
use matrix_sdk_crypto::VerificationRequest as InnerVerificationRequest;
use crate::identifiers::room_id_valid;
use crate::identifiers::user_id_valid;
use crate::requests::OutgoingVerificationRequest;
use crate::requests::SignatureUploadRequest;

verus! {

#[verifier::external_type_specification]
#[verifier::external_body]
pub struct ExInnerCancelInfo(InnerCancelInfo);

#[verifier::external_type_specification]
#[verifier::external_body]
pub struct ExQrVerification(QrVerification);

#[verifier::external_type_specification]
#[verifier::external_body]
pub struct ExInnerSas(InnerSas);

#[verifier::external_type_specification]
#[verifier::external_body]
pub struct ExInnerVerification(InnerVerification);

#[verifier::external_type_specification]
#[verifier::external_body]
pub struct ExInnerVerificationRequest(InnerVerificationRequest);

/// A verification flow, by its method.
pub enum Verification {
    /// The `m.sas.v1` flow: both sides compare a short string.
    SasV1 {
        /// Where the flow stands.
        sas: Sas,
    },
    /// The `m.qr_code.scan.v1`, `m.qr_code.show.v1` and `m.reciprocate.v1`
    /// flow: one side scans a code that the other shows.
    QrCodeV1 {
        /// Where the flow stands.
        qrcode: QrCode,
    },
}

/// A snapshot of a short-authentication-string flow.
pub struct Sas {
    /// The other user of the flow.
    pub other_user_id: String,
    /// The other user's device.
    pub other_device_id: String,
    /// The id of the flow: a random string where the flow runs over to-device
    /// messages, an event id where it runs in a room.
    pub flow_id: String,
    /// The room of the flow, where it runs in one.
    pub room_id: Option<String>,
    /// Whether we started the flow.
    pub we_started: bool,
    /// Whether the side that did not start has accepted.
    pub has_been_accepted: bool,
    /// Whether the short string can be shown.
    pub can_be_presented: bool,
    /// Whether the short string can be shown as emoji.
    pub supports_emoji: bool,
    /// Whether we confirmed that the strings match.
    pub have_we_confirmed: bool,
    /// Whether the flow ended in success.
    pub is_done: bool,
    /// Whether the flow was cancelled.
    pub is_cancelled: bool,
    /// Why and by whom the flow was cancelled, where it was.
    pub cancel_info: Option<CancelInfo>,
}

/// A snapshot of a QR code flow.
pub struct QrCode {
    /// The other user of the flow.
    pub other_user_id: String,
    /// The other user's device.
    pub other_device_id: String,
    /// The id of the flow: a random string where the flow runs over to-device
    /// messages, an event id where it runs in a room.
    pub flow_id: String,
    /// The room of the flow, where it runs in one.
    pub room_id: Option<String>,
    /// Whether we started the flow.
    pub we_started: bool,
    /// Whether the other side scanned our code.
    pub other_side_scanned: bool,
    /// Whether we confirmed that the other side scanned.
    pub has_been_confirmed: bool,
    /// Whether we scanned their code and told them so.
    pub reciprocated: bool,
    /// Whether the flow ended in success.
    pub is_done: bool,
    /// Whether the flow was cancelled.
    pub is_cancelled: bool,
    /// Why and by whom the flow was cancelled, where it was.
    pub cancel_info: Option<CancelInfo>,
}

/// Why a flow was cancelled, and by whom.
pub struct CancelInfo {
    /// The reason in words.
    pub reason: String,
    /// The cancel code, such as `m.user` or `m.key_mismatch`.
    pub cancel_code: String,
    /// Whether it was us who cancelled.
    pub cancelled_by_us: bool,
}

/// A short-authentication-string flow that was started, and the message that
/// tells the other side so.
pub struct StartSasResult {
    /// The flow.
    pub sas: Sas,
    /// The message to send.
    pub request: OutgoingVerificationRequest,
}

/// A QR code flow that began with our scan, and the message that tells the
/// other side so.
pub struct ScanResult {
    /// The flow.
    pub qr: QrCode,
    /// The message to send.
    pub request: OutgoingVerificationRequest,
}

/// A verification request that was made, and the message that carries it.
pub struct RequestVerificationResult {
    /// The request.
    pub verification: VerificationRequest,
    /// The message to send.
    pub request: OutgoingVerificationRequest,
}

/// What confirming a flow asks to send.
pub struct ConfirmVerificationResult {
    /// The messages that tell the other side, in the order to send them in.
    /// Never empty.
    pub requests: Vec<OutgoingVerificationRequest>,
    /// Signatures of the device or identity that the flow verified, where the
    /// flow is complete and we hold the key to sign with.
    pub signature_request: Option<SignatureUploadRequest>,
}

/// A snapshot of a verification request: the handshake before a method is
/// picked.
pub struct VerificationRequest {
    /// The other user of the flow.
    pub other_user_id: String,
    /// The other user's device, once it is known.
    pub other_device_id: Option<String>,
    /// The id of the flow: a random string where the flow runs over to-device
    /// messages, an event id where it runs in a room.
    pub flow_id: String,
    /// The room of the flow, where it runs in one.
    pub room_id: Option<String>,
    /// Whether we made the request.
    pub we_started: bool,
    /// Whether both sides agreed to verify.
    pub is_ready: bool,
    /// Whether another device of ours answered the request.
    pub is_passive: bool,
    /// Whether the flow ended in success.
    pub is_done: bool,
    /// Whether the flow was cancelled.
    pub is_cancelled: bool,
    /// The methods that the other side offers.
    pub their_methods: Option<Vec<String>>,
    /// The methods that we offer.
    pub our_methods: Option<Vec<String>>,
    /// Why and by whom the flow was cancelled, where it was.
    pub cancel_info: Option<CancelInfo>,
}

/// Reads a `matrix_sdk_crypto::CancelInfo` through `reason`, `cancel_code`
/// and `cancelled_by_us`.
#[verifier::external_body]
pub(crate) fn cancel_info_fields(info: &InnerCancelInfo) -> CancelInfo {
    CancelInfo {
        reason: info.reason().to_owned(),
        cancel_code: info.cancel_code().to_string(),
        cancelled_by_us: info.cancelled_by_us(),
    }
}

/// Calls `matrix_sdk_crypto::Sas::cancel_info`.
#[verifier::external_body]
pub(crate) fn sas_cancel_info(sas: &InnerSas) -> Option<InnerCancelInfo> {
    sas.cancel_info()
}

/// Whether a flow is between well-formed parties: the other user is a user
/// identifier, and the room, where there is one, a room identifier.
pub open spec fn well_placed(other_user_id: String, room_id: Option<String>) -> bool {
    user_id_valid(other_user_id@) && (room_id is Some ==> room_id_valid(room_id->0@))
}

/// Reads a `matrix_sdk_crypto::Sas` through its getters, one per field.
/// Trusted: the user and the room are the texts of a `UserId` and a
/// `RoomId`, and the cancellation is the one that was handed in.
#[verifier::external_body]
pub(crate) fn sas_fields(sas: &InnerSas, cancel_info: Option<CancelInfo>) -> (r: Sas)
    ensures
        well_placed(r.other_user_id, r.room_id),
        r.cancel_info == cancel_info,
{
    Sas {
        other_user_id: sas.other_user_id().to_string(),
        other_device_id: sas.other_device_id().to_string(),
        flow_id: sas.flow_id().as_str().to_owned(),
        room_id: sas.room_id().map(|r| r.to_string()),
        we_started: sas.we_started(),
        has_been_accepted: sas.has_been_accepted(),
        can_be_presented: sas.can_be_presented(),
        supports_emoji: sas.supports_emoji(),
        have_we_confirmed: sas.have_we_confirmed(),
        is_done: sas.is_done(),
        is_cancelled: sas.is_cancelled(),
        cancel_info,
    }
}

/// Calls `matrix_sdk_crypto::QrVerification::cancel_info`.
#[verifier::external_body]
pub(crate) fn qr_cancel_info(qr: &QrVerification) -> Option<InnerCancelInfo> {
    qr.cancel_info()
}

/// Reads a `matrix_sdk_crypto::QrVerification` through its getters, one per
/// field.  Trusted: the user and the room are the texts of a `UserId` and a
/// `RoomId`, and the cancellation is the one that was handed in.
#[verifier::external_body]
pub(crate) fn qr_fields(qr: &QrVerification, cancel_info: Option<CancelInfo>) -> (r: QrCode)
    ensures
        well_placed(r.other_user_id, r.room_id),
        r.cancel_info == cancel_info,
{
    QrCode {
        other_user_id: qr.other_user_id().to_string(),
        other_device_id: qr.other_device_id().to_string(),
        flow_id: qr.flow_id().as_str().to_owned(),
        room_id: qr.room_id().map(|r| r.to_string()),
        we_started: qr.we_started(),
        other_side_scanned: qr.has_been_scanned(),
        has_been_confirmed: qr.has_been_confirmed(),
        reciprocated: qr.reciprocated(),
        is_done: qr.is_done(),
        is_cancelled: qr.is_cancelled(),
        cancel_info,
    }
}

/// Calls `matrix_sdk_crypto::VerificationRequest::cancel_info`.
#[verifier::external_body]
pub(crate) fn request_cancel_info(request: &InnerVerificationRequest) -> Option<InnerCancelInfo> {
    request.cancel_info()
}

/// Calls `VerificationRequest::their_supported_methods` and
/// `our_supported_methods`, and writes each method as text.
#[verifier::external_body]
pub(crate) fn request_methods(
    request: &InnerVerificationRequest,
) -> (Option<Vec<String>>, Option<Vec<String>>) {
    let theirs = request.their_supported_methods();
    let ours = request.our_supported_methods();
    (
        theirs.map(|v| v.iter().map(|m| m.to_string()).collect()),
        ours.map(|v| v.iter().map(|m| m.to_string()).collect()),
    )
}

/// Reads a `matrix_sdk_crypto::VerificationRequest` through its getters, one
/// per field.  Trusted: the user and the room are the texts of a `UserId`
/// and a `RoomId`, and the methods and the cancellation are those that were
/// handed in.
#[verifier::external_body]
pub(crate) fn request_fields(
    request: &InnerVerificationRequest,
    methods: (Option<Vec<String>>, Option<Vec<String>>),
    cancel_info: Option<CancelInfo>,
) -> (r: VerificationRequest)
    ensures
        well_placed(r.other_user_id, r.room_id),
        r.their_methods == methods.0,
        r.our_methods == methods.1,
        r.cancel_info == cancel_info,
{
    VerificationRequest {
        other_user_id: request.other_user().to_string(),
        other_device_id: request.other_device_id().map(|d| d.to_string()),
        flow_id: request.flow_id().as_str().to_owned(),
        room_id: request.room_id().map(|r| r.to_string()),
        we_started: request.we_started(),
        is_ready: request.is_ready(),
        is_passive: request.is_passive(),
        is_done: request.is_done(),
        is_cancelled: request.is_cancelled(),
        their_methods: methods.0,
        our_methods: methods.1,
        cancel_info,
    }
}

/// A flow of `matrix_sdk_crypto`, by its method.
pub(crate) enum Flow {
    Sas(InnerSas),
    Qr(QrVerification),
    Other,
}

/// Reads the variant of a `matrix_sdk_crypto::Verification`.  The enum is
/// open to more methods; a flow of any other method is `Other`.
#[verifier::external_body]
pub(crate) fn flow_of(verification: InnerVerification) -> Flow {
    match verification {
        InnerVerification::SasV1(sas) => Flow::Sas(sas),
        InnerVerification::QrV1(qr) => Flow::Qr(qr),
        _ => Flow::Other,
    }
}

impl CancelInfo {
    /// The plain form of a cancellation.
    pub(crate) fn from_inner(info: &InnerCancelInfo) -> CancelInfo {
        cancel_info_fields(info)
    }

    /// The plain form of a cancellation that may be absent.
    pub(crate) fn from_option(info: Option<InnerCancelInfo>) -> (r: Option<CancelInfo>)
        ensures
            r is Some <==> info is Some,
    {
        match info {
            Some(c) => Some(CancelInfo::from_inner(&c)),
            None => None,
        }
    }
}

/// What is done with a flow that is asked to go on, or to end.
#[derive(Clone, Copy, Debug, PartialEq, Eq, Structural)]
pub enum FlowStep {
    /// The flow is over: nothing is done with it, and nothing is sent.
    NotActive,
    /// The flow is handed what was asked of it.
    Proceed,
}

/// What is done with a flow that is asked to go on, or to end.  A flow that
/// is over, done or cancelled by either side, is not active: it is not
/// confirmed and not cancelled again, and nothing is sent for it.
pub fn flow_step(over: bool) -> (r: FlowStep)
    ensures
        over ==> r == FlowStep::NotActive,
        !over ==> r == FlowStep::Proceed,
{
    if over {
        FlowStep::NotActive
    } else {
        FlowStep::Proceed
    }
}

impl Sas {
    /// Whether the flow is over: done, or cancelled.
    pub open spec fn over(&self) -> bool {
        self.is_done || self.is_cancelled
    }

    /// Whether the flow is over: done, or cancelled.
    pub fn is_over(&self) -> (r: bool)
        ensures
            r == self.over(),
    {
        self.is_done || self.is_cancelled
    }

    /// A snapshot of the flow as it stands now.
    pub(crate) fn from_inner(sas: &InnerSas) -> (r: Sas)
        ensures
            well_placed(r.other_user_id, r.room_id),
    {
        let cancel_info = CancelInfo::from_option(sas_cancel_info(sas));
        sas_fields(sas, cancel_info)
    }
}

impl QrCode {
    /// Whether the flow is over: done, or cancelled.
    pub open spec fn over(&self) -> bool {
        self.is_done || self.is_cancelled
    }

    /// Whether the flow is over: done, or cancelled.
    pub fn is_over(&self) -> (r: bool)
        ensures
            r == self.over(),
    {
        self.is_done || self.is_cancelled
    }

    /// A snapshot of the flow as it stands now.
    pub(crate) fn from_inner(qr: &QrVerification) -> (r: QrCode)
        ensures
            well_placed(r.other_user_id, r.room_id),
    {
        let cancel_info = CancelInfo::from_option(qr_cancel_info(qr));
        qr_fields(qr, cancel_info)
    }
}

impl VerificationRequest {
    /// Whether the request is over: done, or cancelled.
    pub open spec fn over(&self) -> bool {
        self.is_done || self.is_cancelled
    }

    /// Whether the request is over: done, or cancelled.
    pub fn is_over(&self) -> (r: bool)
        ensures
            r == self.over(),
    {
        self.is_done || self.is_cancelled
    }

    /// A snapshot of the request as it stands now.
    pub(crate) fn from_inner(request: &InnerVerificationRequest) -> (r: VerificationRequest)
        ensures
            well_placed(r.other_user_id, r.room_id),
    {
        let cancel_info = CancelInfo::from_option(request_cancel_info(request));
        let methods = request_methods(request);
        request_fields(request, methods, cancel_info)
    }
}

impl Verification {
    /// Whether the flow is between well-formed parties.
    pub open spec fn well_formed(self) -> bool {
        match self {
            Verification::SasV1 { sas } => well_placed(sas.other_user_id, sas.room_id),
            Verification::QrCodeV1 { qrcode } => well_placed(qrcode.other_user_id, qrcode.room_id),
        }
    }

    /// A snapshot of the flow as it stands now: a SAS flow gives `SasV1`, a
    /// QR code flow `QrCodeV1`, a flow of any other method nothing.
    pub(crate) fn from_inner(verification: InnerVerification) -> (r: Option<Verification>)
        ensures
            r is Some ==> r->0.well_formed(),
    {
        match flow_of(verification) {
            Flow::Sas(sas) => Some(Verification::SasV1 { sas: Sas::from_inner(&sas) }),
            Flow::Qr(qr) => Some(Verification::QrCodeV1 { qrcode: QrCode::from_inner(&qr) }),
            Flow::Other => None,
        }
    }
}

/// What confirming a flow returns, given the messages that the flow asked to
/// send: nothing where it asked for none, else the messages together with the
/// signature upload.
pub open spec fn confirmation(
    requests: Vec<OutgoingVerificationRequest>,
    signature_request: Option<SignatureUploadRequest>,
) -> Option<ConfirmVerificationResult> {
    if requests@.len() == 0 {
        None
    } else {
        Some(ConfirmVerificationResult { requests, signature_request })
    }
}

impl ConfirmVerificationResult {
    /// Whether every message and the signature upload are well formed.
    pub open spec fn well_formed(self) -> bool {
        &&& forall|k: int|
            0 <= k < self.requests@.len() ==> (#[trigger] self.requests@[k]).well_formed()
        &&& self.signature_request is Some ==> self.signature_request->0.well_formed()
    }

    /// The result of a confirmation.  A flow that is in no state to be
    /// confirmed asks to send nothing, and the result is `None` then, whatever
    /// the signature upload.
    pub fn from_parts(
        requests: Vec<OutgoingVerificationRequest>,
        signature_request: Option<SignatureUploadRequest>,
    ) -> (r: Option<ConfirmVerificationResult>)
        ensures
            r == confirmation(requests, signature_request),
    {
        if requests.len() == 0 {
            None
        } else {
            Some(ConfirmVerificationResult { requests, signature_request })
        }
    }

    /// The result of confirming that the other side scanned our code: the
    /// one message, and no signature upload.
    pub fn from_scan_confirmation(request: Option<OutgoingVerificationRequest>) -> (r: Option<
        ConfirmVerificationResult,
    >)
        ensures
            r is Some <==> request is Some,
            r is Some ==> r->0.requests@ == seq![request->0] && r->0.signature_request is None,
    {
        match request {
            Some(request) => {
                let mut requests: Vec<OutgoingVerificationRequest> = Vec::new();
                requests.push(request);
                Some(ConfirmVerificationResult { requests, signature_request: None })
            },
            None => None,
        }
    }
}

} // verus!
