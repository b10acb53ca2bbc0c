use std::collections::HashMap;
use std::sync::Arc;
use std::sync::Mutex;

use matrix_crypto::json::is_json_text;
use matrix_crypto::machine::backup::recovery_key_to_save;
use matrix_crypto::machine::flows::decimal_list;
use matrix_crypto::machine::flows::emoji_indices;
use matrix_crypto::machine::flows::qr_payload;
use matrix_crypto::machine::sessions::clamp_key_count;
use matrix_crypto::machine::sessions::clamp_key_counts;
use matrix_crypto::requests::contains_id;
use matrix_crypto::requests::first_of_each;
use matrix_crypto::types::count_as_i32;
use matrix_crypto::types::count_as_i64;
use matrix_crypto::types::report_progress;
use matrix_crypto::BackupKeys;
use matrix_crypto::ConfirmVerificationResult;
use matrix_crypto::DeviceLists;
use matrix_crypto::KeysImportResult;
use matrix_crypto::Logger;
use matrix_crypto::LoggerWrapper;
use matrix_crypto::OutgoingVerificationRequest;
use matrix_crypto::ProgressListener;
use matrix_crypto::QrCode;
use matrix_crypto::Request;
use matrix_crypto::RoomKeyCounts;
use matrix_crypto::Sas;
use matrix_crypto::SignatureUploadRequest;
use matrix_crypto::UploadSigningKeysRequest;
use matrix_crypto::VerificationRequest;

struct Recorder {
    calls: Arc<Mutex<Vec<(i32, i32)>>>,
}

impl ProgressListener for Recorder {
    fn on_progress(&self, progress: i32, total: i32) {
        self.calls.lock().unwrap().push((progress, total));
    }
}

struct Lines {
    lines: Arc<Mutex<Vec<String>>>,
}

impl Logger for Lines {
    fn log(&self, log_line: String) {
        self.lines.lock().unwrap().push(log_line);
    }
}

fn message(id: &str) -> OutgoingVerificationRequest {
    OutgoingVerificationRequest::ToDevice {
        request_id: id.to_owned(),
        event_type: "m.key.verification.mac".to_owned(),
        body: "{}".to_owned(),
    }
}

fn id_of(request: &OutgoingVerificationRequest) -> &str {
    match request {
        OutgoingVerificationRequest::ToDevice { request_id, .. } => request_id,
        OutgoingVerificationRequest::InRoom { request_id, .. } => request_id,
    }
}

#[test]
fn negative_key_counts_are_none() {
    assert_eq!(clamp_key_count(-1), 0);
    assert_eq!(clamp_key_count(i32::MIN), 0);
    assert_eq!(clamp_key_count(0), 0);
    assert_eq!(clamp_key_count(50), 50);
    assert_eq!(clamp_key_count(i32::MAX), 2_147_483_647);
}

#[test]
fn key_counts_are_clamped_in_order() {
    let counts = vec![
        ("signed_curve25519".to_owned(), 50),
        ("curve25519".to_owned(), -3),
        ("signed_curve25519".to_owned(), 0),
    ];
    assert_eq!(
        clamp_key_counts(counts),
        vec![
            ("signed_curve25519".to_owned(), 50u32),
            ("curve25519".to_owned(), 0u32),
            ("signed_curve25519".to_owned(), 0u32),
        ]
    );
    assert_eq!(clamp_key_counts(Vec::new()), Vec::<(String, u32)>::new());
}

#[test]
fn counts_wrap_like_a_cast() {
    assert_eq!(count_as_i64(0), 0);
    assert_eq!(count_as_i64(12), 12);
    assert_eq!(count_as_i64(usize::MAX), usize::MAX as i64);
    assert_eq!(count_as_i32(0), 0);
    assert_eq!(count_as_i32(2_147_483_647), i32::MAX);
    assert_eq!(count_as_i32(2_147_483_648), i32::MIN);
    assert_eq!(count_as_i32(4_294_967_295), -1);
    assert_eq!(count_as_i32(4_294_967_296), 0);
}

#[test]
fn room_key_counts_are_taken_over() {
    let counts = RoomKeyCounts::from_counts(5, 3);
    assert_eq!(counts, RoomKeyCounts { total: 5, backed_up: 3 });
    let counts = RoomKeyCounts::from_counts(0, 0);
    assert_eq!(counts, RoomKeyCounts { total: 0, backed_up: 0 });
}

#[test]
fn import_result_is_taken_over() {
    let mut sessions = HashMap::new();
    sessions.insert("sender".to_owned(), vec!["session".to_owned()]);
    let mut keys = HashMap::new();
    keys.insert("!room:example.org".to_owned(), sessions);
    let r: KeysImportResult = KeysImportResult::from_counts(1, 2, keys.clone());
    assert_eq!(r.imported, 1);
    assert_eq!(r.total, 2);
    assert_eq!(r.keys, keys);
}

#[test]
fn progress_is_reported_as_signed_numbers() {
    let calls = Arc::new(Mutex::new(Vec::new()));
    let listener: Box<dyn ProgressListener> = Box::new(Recorder { calls: calls.clone() });
    report_progress(&listener, 0, 10);
    report_progress(&listener, 9, 10);
    report_progress(&listener, 4_294_967_295, 2_147_483_648);
    assert_eq!(*calls.lock().unwrap(), vec![(0, 10), (9, 10), (-1, i32::MIN)]);
}

#[test]
fn backup_keys_need_key_and_version() {
    let both = BackupKeys::from_parts(Some("key".to_owned()), Some("1".to_owned())).unwrap();
    assert_eq!(both.recovery_key, "key");
    assert_eq!(both.backup_version, "1");
    assert!(BackupKeys::from_parts(Some("key".to_owned()), None).is_none());
    assert!(BackupKeys::from_parts(None, Some("1".to_owned())).is_none());
    assert!(BackupKeys::from_parts(None, None).is_none());
}

#[test]
fn signing_key_upload_needs_all_three_keys() {
    let k = |s: &str| Some(s.to_owned());
    let all = UploadSigningKeysRequest::from_keys(k("m"), k("s"), k("u")).unwrap();
    assert_eq!(all.master_key, "m");
    assert_eq!(all.self_signing_key, "s");
    assert_eq!(all.user_signing_key, "u");
    assert!(UploadSigningKeysRequest::from_keys(None, k("s"), k("u")).is_none());
    assert!(UploadSigningKeysRequest::from_keys(k("m"), None, k("u")).is_none());
    assert!(UploadSigningKeysRequest::from_keys(k("m"), k("s"), None).is_none());
    assert!(UploadSigningKeysRequest::from_keys(None, None, None).is_none());
}

#[test]
fn confirmation_without_messages_is_nothing() {
    assert!(ConfirmVerificationResult::from_parts(Vec::new(), None).is_none());
    let signatures = SignatureUploadRequest { body: "{}".to_owned() };
    assert!(ConfirmVerificationResult::from_parts(Vec::new(), Some(signatures)).is_none());
}

#[test]
fn confirmation_keeps_messages_in_order() {
    let signatures = SignatureUploadRequest { body: "{\"a\":1}".to_owned() };
    let r = ConfirmVerificationResult::from_parts(
        vec![message("mac"), message("done")],
        Some(signatures),
    )
    .unwrap();
    assert_eq!(r.requests.len(), 2);
    assert_eq!(id_of(&r.requests[0]), "mac");
    assert_eq!(id_of(&r.requests[1]), "done");
    assert_eq!(r.signature_request.unwrap().body, "{\"a\":1}");
    let r = ConfirmVerificationResult::from_parts(vec![message("mac")], None).unwrap();
    assert_eq!(r.requests.len(), 1);
    assert!(r.signature_request.is_none());
}

#[test]
fn scan_confirmation_is_one_message() {
    assert!(ConfirmVerificationResult::from_scan_confirmation(None).is_none());
    let r = ConfirmVerificationResult::from_scan_confirmation(Some(message("done"))).unwrap();
    assert_eq!(r.requests.len(), 1);
    assert_eq!(id_of(&r.requests[0]), "done");
    assert!(r.signature_request.is_none());
}

#[test]
fn device_lists_drop_what_is_no_user() {
    let lists = DeviceLists {
        changed: vec!["@a:x.org".to_owned(), "nobody".to_owned(), "@b:x.org".to_owned()],
        left: vec!["".to_owned(), "@c:x.org".to_owned()],
    };
    let valid = lists.valid();
    assert_eq!(valid.changed, vec!["@a:x.org".to_owned(), "@b:x.org".to_owned()]);
    assert_eq!(valid.left, vec!["@c:x.org".to_owned()]);
}

#[test]
fn emoji_indices_keep_their_order() {
    assert_eq!(emoji_indices([0, 1, 2, 3, 61, 62, 63]), vec![0, 1, 2, 3, 61, 62, 63]);
    assert_eq!(emoji_indices([255, 0, 0, 0, 0, 0, 128]), vec![255, 0, 0, 0, 0, 0, 128]);
}

#[test]
fn decimals_keep_their_order() {
    assert_eq!(decimal_list((1000, 2000, 9191)), vec![1000, 2000, 9191]);
    assert_eq!(decimal_list((0, 65535, 1)), vec![0, 65535, 1]);
}

#[test]
fn recovery_key_that_is_none_is_not_saved() {
    assert!(recovery_key_to_save(None).is_none());
    assert!(recovery_key_to_save(Some("no key".to_owned())).is_none());
    assert!(recovery_key_to_save(Some("AAAA".to_owned())).is_none());
    let zero = "AAAAAAAAAAAAAAAAAAAAAAAAAAAAAAAAAAAAAAAAAAA".to_owned();
    assert_eq!(recovery_key_to_save(Some(zero)), Some([0u8; 32]));
}

#[test]
fn json_texts_are_told_apart() {
    assert!(is_json_text("{}"));
    assert!(is_json_text("{\"a\": [1, 2, {\"b\": null}]}"));
    assert!(is_json_text("[]"));
    assert!(is_json_text("3"));
    assert!(!is_json_text(""));
    assert!(!is_json_text("{"));
    assert!(!is_json_text("{} {}"));
    assert!(!is_json_text("{'a': 1}"));
}

#[test]
fn qr_payload_needs_base64_of_qr_data() {
    assert!(qr_payload("").is_none());
    assert!(qr_payload("not base64 at all!").is_none());
    assert!(qr_payload("AAAA").is_none());
    assert!(qr_payload("TUFUUklY").is_none());
    assert!(qr_payload("TUFUUklYAgA=").is_none());
}

#[test]
fn logger_gets_each_write_as_a_line() {
    let lines = Arc::new(Mutex::new(Vec::new()));
    let mut writer = LoggerWrapper::new(Box::new(Lines { lines: lines.clone() }));
    assert_eq!(writer.write(b"hello\n"), 6);
    assert_eq!(writer.write(b""), 0);
    assert_eq!(writer.write(&[0x61, 0xff, 0x62]), 3);
    writer.flush();
    assert_eq!(
        *lines.lock().unwrap(),
        vec!["hello\n".to_owned(), "".to_owned(), "a\u{fffd}b".to_owned()]
    );
}

fn upload(id: &str) -> Request {
    Request::KeysUpload { request_id: id.to_owned(), body: format!("{{\"n\":\"{}\"}}", id) }
}

fn query(id: &str, user: &str) -> Request {
    Request::KeysQuery { request_id: id.to_owned(), users: vec![user.to_owned()] }
}

fn summary(requests: &Vec<Request>) -> Vec<String> {
    requests.iter().map(|r| format!("{:?}", r)).collect()
}

#[test]
fn repeated_ids_keep_their_first_request() {
    let list = vec![upload("a"), query("b", "@x:y.z"), query("a", "@late:y.z"), upload("b"), upload("c")];
    let kept = first_of_each(list);
    assert_eq!(summary(&kept), summary(&vec![upload("a"), query("b", "@x:y.z"), upload("c")]));
    assert_eq!(kept[0].request_id(), "a");
    assert_eq!(kept[1].request_id(), "b");
    assert_eq!(kept[2].request_id(), "c");
}

#[test]
fn distinct_ids_are_all_kept() {
    let list = vec![upload("a"), upload("b"), query("c", "@x:y.z")];
    let kept = first_of_each(list);
    assert_eq!(summary(&kept), summary(&vec![upload("a"), upload("b"), query("c", "@x:y.z")]));
    assert!(first_of_each(Vec::new()).is_empty());
    let same = first_of_each(vec![upload("a"), upload("a"), upload("a")]);
    assert_eq!(summary(&same), summary(&vec![upload("a")]));
}

#[test]
fn ids_are_found_in_a_list() {
    let list = vec![upload("a"), query("b", "@x:y.z")];
    assert!(contains_id(&list, &"a".to_owned()));
    assert!(contains_id(&list, &"b".to_owned()));
    assert!(!contains_id(&list, &"c".to_owned()));
    assert!(!contains_id(&list, &"".to_owned()));
    assert!(!contains_id(&Vec::new(), &"a".to_owned()));
}

fn request_snapshot(is_done: bool, is_cancelled: bool) -> VerificationRequest {
    VerificationRequest {
        other_user_id: "@bob:example.org".to_owned(),
        other_device_id: None,
        flow_id: "flow".to_owned(),
        room_id: None,
        we_started: true,
        is_ready: false,
        is_passive: false,
        is_done,
        is_cancelled,
        their_methods: None,
        our_methods: None,
        cancel_info: None,
    }
}

#[test]
fn done_and_cancelled_flows_are_over() {
    assert!(!request_snapshot(false, false).is_over());
    assert!(request_snapshot(true, false).is_over());
    assert!(request_snapshot(false, true).is_over());
    assert!(request_snapshot(true, true).is_over());
    let sas = |is_done: bool, is_cancelled: bool| Sas {
        other_user_id: "@bob:example.org".to_owned(),
        other_device_id: "BOBDEVICE".to_owned(),
        flow_id: "flow".to_owned(),
        room_id: None,
        we_started: true,
        has_been_accepted: true,
        can_be_presented: true,
        supports_emoji: true,
        have_we_confirmed: false,
        is_done,
        is_cancelled,
        cancel_info: None,
    };
    assert!(!sas(false, false).is_over());
    assert!(sas(true, false).is_over());
    assert!(sas(false, true).is_over());
    let qr = |is_done: bool, is_cancelled: bool| QrCode {
        other_user_id: "@bob:example.org".to_owned(),
        other_device_id: "BOBDEVICE".to_owned(),
        flow_id: "flow".to_owned(),
        room_id: None,
        we_started: true,
        other_side_scanned: false,
        has_been_confirmed: false,
        reciprocated: false,
        is_done,
        is_cancelled,
        cancel_info: None,
    };
    assert!(!qr(false, false).is_over());
    assert!(qr(true, false).is_over());
    assert!(qr(false, true).is_over());
}
