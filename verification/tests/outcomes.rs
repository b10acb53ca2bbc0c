use std::collections::HashMap;

use matrix_crypto::machine::devices::is_listed;
use matrix_crypto::machine::identity_key_entries;
use matrix_crypto::machine::keys::payload_count;
use matrix_crypto::machine::provenance::forwarded_key;
use matrix_crypto::machine::provenance::forwarding_chain;
use matrix_crypto::machine::provenance::is_among;
use matrix_crypto::machine::provenance::record_name;
use matrix_crypto::machine::keys::SHORTEST_PAYLOAD;
use matrix_crypto::machine::sessions::claimed_key;
use matrix_crypto::machine::sessions::clear_event;
use matrix_crypto::machine::sessions::clear_parts;
use matrix_crypto::machine::sessions::is_usable;
use matrix_crypto::machine::sessions::room_key_gate;
use matrix_crypto::machine::sessions::ClearParts;
use matrix_crypto::machine::sessions::EventFault;
use matrix_crypto::requests::upload_body;
use matrix_crypto::requests::Pending;
use matrix_crypto::requests::PendingKind;
use matrix_crypto::CryptoStoreError;
use matrix_crypto::DecryptedEvent;
use matrix_crypto::verification::flow_step;
use matrix_crypto::DecryptionError;
use matrix_crypto::FlowStep;
use matrix_crypto::OutgoingVerificationRequest;
use matrix_crypto::QrCode;
use matrix_crypto::ScanResult;
use matrix_crypto::Request;
use matrix_crypto::UserIdentity;
use serde_json::Value;

fn text(s: &str) -> String {
    s.to_owned()
}

fn pending(id: &str, kind: PendingKind) -> Pending {
    Pending { request_id: text(id), kind }
}

fn json_failure() -> serde_json::Error {
    serde_json::from_str::<Value>("{").unwrap_err()
}

fn claimed() -> Vec<(String, String)> {
    vec![
        (text("curve25519"), text("c-key")),
        (text("ed25519"), text("e-key")),
        (text("ed25519"), text("later")),
    ]
}

#[test]
fn room_key_gate_lets_a_usable_key_through() {
    assert!(matches!(room_key_gate(true, "!room:example.org"), Ok(())));
}

#[test]
fn room_key_gate_refuses_with_the_room() {
    match room_key_gate(false, "!room:example.org") {
        Err(CryptoStoreError::NoRoomKey(room)) => assert_eq!(room, "!room:example.org"),
        other => panic!("unexpected: {:?}", other.is_ok()),
    }
}

#[test]
fn only_a_session_that_is_there_and_fresh_is_usable() {
    assert!(is_usable(Some(false)));
    assert!(!is_usable(Some(true)));
    assert!(!is_usable(None));
}

#[test]
fn claimed_key_is_the_first_under_the_algorithm() {
    assert_eq!(claimed_key(&claimed(), "ed25519"), Some(text("e-key")));
    assert_eq!(claimed_key(&claimed(), "curve25519"), Some(text("c-key")));
    assert_eq!(claimed_key(&claimed(), "ed448"), None);
    assert_eq!(claimed_key(&Vec::new(), "ed25519"), None);
}

#[test]
fn clear_parts_are_what_was_read() {
    let keys = Some((text("sender"), claimed()));
    let parts: ClearParts = match clear_parts(keys, Some(text("m.room.message")), Some(text("{}"))) {
        Ok(parts) => parts,
        Err(_) => panic!("nothing is missing"),
    };
    assert_eq!(parts.sender_curve25519_key, "sender");
    assert_eq!(parts.claimed_ed25519_key, Some(text("e-key")));
    assert_eq!(parts.event_type, "m.room.message");
    assert_eq!(parts.content, "{}");
}

#[test]
fn clear_parts_without_a_claimed_ed25519_key() {
    let keys = Some((text("sender"), vec![(text("curve25519"), text("c-key"))]));
    match clear_parts(keys, Some(text("t")), Some(text("1"))) {
        Ok(parts) => assert_eq!(parts.claimed_ed25519_key, None),
        Err(_) => panic!("nothing is missing"),
    }
}

#[test]
fn first_missing_part_is_the_fault() {
    let keys = || Some((text("sender"), claimed()));
    let fault = |r: Result<ClearParts, EventFault>| r.err();
    assert_eq!(fault(clear_parts(None, None, None)), Some(EventFault::NoEncryptionInfo));
    assert_eq!(
        fault(clear_parts(None, Some(text("t")), Some(text("{}")))),
        Some(EventFault::NoEncryptionInfo)
    );
    assert_eq!(fault(clear_parts(keys(), None, None)), Some(EventFault::NoType));
    assert_eq!(fault(clear_parts(keys(), None, Some(text("{}")))), Some(EventFault::NoType));
    assert_eq!(fault(clear_parts(keys(), Some(text("t")), None)), Some(EventFault::NoContent));
}

#[test]
fn clear_event_is_type_then_content() {
    assert_eq!(
        clear_event("\"m.room.message\"", "{\"body\":\"hi\"}"),
        "{\"type\":\"m.room.message\",\"content\":{\"body\":\"hi\"}}"
    );
    assert_eq!(clear_event("", ""), "{\"type\":,\"content\":}");
}

#[test]
fn decrypted_event_keeps_its_parts_and_chain() {
    let parts = ClearParts {
        sender_curve25519_key: text("sender"),
        claimed_ed25519_key: Some(text("e-key")),
        event_type: text("t"),
        content: text("{}"),
    };
    let chain = vec![text("first"), text("second")];
    let event = DecryptedEvent::from_parts(parts, text("{\"type\":\"t\",\"content\":{}}"), chain);
    assert_eq!(event.clear_event, "{\"type\":\"t\",\"content\":{}}");
    assert_eq!(event.sender_curve25519_key, "sender");
    assert_eq!(event.claimed_ed25519_key, Some(text("e-key")));
    assert_eq!(event.forwarding_curve25519_chain, vec![text("first"), text("second")]);
}

#[test]
fn upload_body_names_its_three_parts() {
    assert_eq!(
        upload_body("null", "{\"a\":1}", "{}"),
        "{\"device_keys\":null,\"one_time_keys\":{\"a\":1},\"fallback_keys\":{}}"
    );
    let parsed: Value = serde_json::from_str(&upload_body("{\"d\":0}", "{}", "{\"f\":2}")).unwrap();
    assert_eq!(parsed["device_keys"]["d"], 0);
    assert_eq!(parsed["fallback_keys"]["f"], 2);
    assert_eq!(parsed.as_object().unwrap().len(), 3);
}

#[test]
fn pending_upload_query_and_signatures_go_out_under_the_pending_id() {
    match Request::from_pending(pending("p1", PendingKind::KeysUpload { body: text("{}") })) {
        Request::KeysUpload { request_id, body } => {
            assert_eq!(request_id, "p1");
            assert_eq!(body, "{}");
        },
        other => panic!("unexpected: {:?}", other),
    }
    let users = vec![text("@b:x.org"), text("@a:x.org"), text("@c:x.org")];
    match Request::from_pending(pending("p2", PendingKind::KeysQuery { users: users.clone() })) {
        Request::KeysQuery { request_id, users: asked } => {
            assert_eq!(request_id, "p2");
            assert_eq!(asked, users);
        },
        other => panic!("unexpected: {:?}", other),
    }
    match Request::from_pending(pending("p3", PendingKind::SignatureUpload { body: text("[]") })) {
        Request::SignatureUpload { request_id, body } => {
            assert_eq!(request_id, "p3");
            assert_eq!(body, "[]");
        },
        other => panic!("unexpected: {:?}", other),
    }
}

#[test]
fn pending_claim_and_backup_go_out_under_the_pending_id() {
    let mut devices = HashMap::new();
    devices.insert(text("DEVICE"), text("signed_curve25519"));
    let mut wanted = HashMap::new();
    wanted.insert(text("@a:x.org"), devices);
    let kind = PendingKind::KeysClaim { one_time_keys: wanted.clone() };
    match Request::from_pending(pending("p4", kind)) {
        Request::KeysClaim { request_id, one_time_keys } => {
            assert_eq!(request_id, "p4");
            assert_eq!(one_time_keys, wanted);
        },
        other => panic!("unexpected: {:?}", other),
    }
    let kind = PendingKind::KeysBackup { version: text("7"), rooms: text("{\"r\":1}") };
    match Request::from_pending(pending("p5", kind)) {
        Request::KeysBackup { request_id, version, rooms } => {
            assert_eq!(request_id, "p5");
            assert_eq!(version, "7");
            assert_eq!(rooms, "{\"r\":1}");
        },
        other => panic!("unexpected: {:?}", other),
    }
}

#[test]
fn pending_messages_go_out_under_their_transaction() {
    let kind = PendingKind::ToDevice {
        transaction_id: text("t1"),
        event_type: text("m.room_key"),
        body: text("{\"m\":1}"),
    };
    match Request::from_pending(pending("p6", kind)) {
        Request::ToDevice { request_id, event_type, body } => {
            assert_eq!(request_id, "t1");
            assert_eq!(event_type, "m.room_key");
            assert_eq!(body, "{\"m\":1}");
        },
        other => panic!("unexpected: {:?}", other),
    }
    let kind = PendingKind::RoomMessage {
        transaction_id: text("t2"),
        room_id: text("!r:x.org"),
        event_type: text("m.key.verification.request"),
        content: text("{\"c\":2}"),
    };
    match Request::from_pending(pending("p7", kind)) {
        Request::RoomMessage { request_id, room_id, event_type, content } => {
            assert_eq!(request_id, "t2");
            assert_eq!(room_id, "!r:x.org");
            assert_eq!(event_type, "m.key.verification.request");
            assert_eq!(content, "{\"c\":2}");
        },
        other => panic!("unexpected: {:?}", other),
    }
}

#[test]
fn pending_list_goes_out_one_for_one() {
    let list = vec![
        pending("p1", PendingKind::KeysUpload { body: text("{}") }),
        pending("p2", PendingKind::KeysQuery { users: vec![text("@a:x.org")] }),
        pending(
            "p3",
            PendingKind::ToDevice { transaction_id: text("t"), event_type: text("e"), body: text("{}") },
        ),
        pending("p1", PendingKind::SignatureUpload { body: text("{}") }),
    ];
    let requests = Request::from_list(list);
    let ids: Vec<&str> = requests.iter().map(|r| r.request_id().as_str()).collect();
    assert_eq!(ids, vec!["p1", "p2", "t", "p1"]);
    assert!(matches!(requests[0], Request::KeysUpload { .. }));
    assert!(matches!(requests[1], Request::KeysQuery { .. }));
    assert!(matches!(requests[2], Request::ToDevice { .. }));
    assert!(matches!(requests[3], Request::SignatureUpload { .. }));
    assert!(Request::from_list(Vec::new()).is_empty());
}

#[test]
fn identity_of_another_user_is_what_was_read() {
    let keys = Ok((text("@b:x.org"), text("{\"m\":1}"), text("{\"s\":2}")));
    match UserIdentity::other_of(keys) {
        Ok(UserIdentity::Other { user_id, master_key, self_signing_key }) => {
            assert_eq!(user_id, "@b:x.org");
            assert_eq!(master_key, "{\"m\":1}");
            assert_eq!(self_signing_key, "{\"s\":2}");
        },
        _ => panic!("the keys were read"),
    }
    assert!(matches!(
        UserIdentity::other_of(Err(json_failure())),
        Err(CryptoStoreError::Serialization(_))
    ));
}

#[test]
fn own_identity_is_what_was_read() {
    let keys = || Ok((text("@a:x.org"), text("{\"m\":1}"), text("{\"u\":3}"), text("{\"s\":2}")));
    for trusts in [true, false] {
        match UserIdentity::own_of(Ok(trusts), keys()) {
            Ok(UserIdentity::Own {
                user_id,
                trusts_our_own_device,
                master_key,
                user_signing_key,
                self_signing_key,
            }) => {
                assert_eq!(user_id, "@a:x.org");
                assert_eq!(trusts_our_own_device, trusts);
                assert_eq!(master_key, "{\"m\":1}");
                assert_eq!(user_signing_key, "{\"u\":3}");
                assert_eq!(self_signing_key, "{\"s\":2}");
            },
            _ => panic!("the keys were read"),
        }
    }
}

#[test]
fn own_identity_fails_with_the_store_first() {
    let keys = || Ok((text("@a:x.org"), text("1"), text("2"), text("3")));
    let store = || matrix_sdk_crypto::CryptoStoreError::UnpicklingError;
    assert!(matches!(
        UserIdentity::own_of(Err(store()), keys()),
        Err(CryptoStoreError::CryptoStore(_))
    ));
    assert!(matches!(
        UserIdentity::own_of(Err(store()), Err(json_failure())),
        Err(CryptoStoreError::CryptoStore(_))
    ));
    assert!(matches!(
        UserIdentity::own_of(Ok(true), Err(json_failure())),
        Err(CryptoStoreError::Serialization(_))
    ));
}

#[test]
fn identity_keys_go_under_the_names_of_their_algorithms() {
    let entries = identity_key_entries(text("e-key"), text("c-key"));
    assert_eq!(
        entries,
        vec![(text("ed25519"), text("e-key")), (text("curve25519"), text("c-key"))]
    );
}

const FIRST: &str = "-----BEGIN MEGOLM SESSION DATA-----";
const LAST: &str = "-----END MEGOLM SESSION DATA-----";

#[test]
fn payload_is_what_stands_between_the_frame_lines() {
    assert_eq!(payload_count(""), 0);
    assert_eq!(payload_count("\n\n"), 0);
    assert_eq!(payload_count("abc"), 3);
    assert_eq!(payload_count(&format!("{}\nAAAA\nBB\n{}", FIRST, LAST)), 6);
    assert_eq!(payload_count(&format!("{}\nAAAA\nBB\n{}\n", FIRST, LAST)), 6);
    assert_eq!(payload_count(&format!("{}\n{}", FIRST, LAST)), 0);
    assert_eq!(payload_count(&format!("{}{}", FIRST, LAST)), 0);
    assert_eq!(payload_count(&format!("{} and more\nAA\n{} and more", FIRST, LAST)), 2);
}

#[test]
fn carriage_returns_are_no_payload() {
    assert_eq!(payload_count(&format!("{}\r\nAAAA\r\nBB\r\n{}\r\n", FIRST, LAST)), 6);
    assert_eq!(payload_count("\r\r\r"), 0);
    assert_eq!(payload_count("A\rB"), 2);
}

#[test]
fn line_that_only_holds_a_frame_line_further_in_is_payload() {
    let text = format!(" {}\nAA\n", FIRST);
    assert_eq!(payload_count(&text), FIRST.len() + 1 + 2);
    let text = format!("{}\nAA\n", &FIRST[..FIRST.len() - 1]);
    assert_eq!(payload_count(&text), FIRST.len() - 1 + 2);
    assert_eq!(payload_count("é\n"), 2);
}

#[test]
fn shortest_payload_is_under_that_of_an_export_of_nothing() {
    assert_eq!(SHORTEST_PAYLOAD, 94);
    let nothing = matrix_sdk_crypto::encrypt_room_key_export(&[], "passphrase", 1).unwrap();
    assert_eq!(payload_count(&nothing), 95);
    let decoded = base64::decode_config("A".repeat(92), base64::STANDARD_NO_PAD).unwrap();
    assert_eq!(decoded.len(), 69);
}

fn group_failure() -> matrix_sdk_crypto::MegolmError {
    matrix_sdk_crypto::MegolmError::JsonError(json_failure())
}

#[test]
fn only_a_missing_room_key_is_recoverable() {
    let missing = DecryptionError::of_group_session(true, group_failure());
    assert!(matches!(missing, DecryptionError::MissingRoomKey(_)));
    assert!(missing.is_recoverable());
    let other = DecryptionError::of_group_session(false, group_failure());
    assert!(matches!(other, DecryptionError::Megolm(_)));
    assert!(!other.is_recoverable());
    assert!(!DecryptionError::Serialization(json_failure()).is_recoverable());
    let id = <&ruma::RoomId>::try_from("").unwrap_err();
    assert!(!DecryptionError::Identifier(id).is_recoverable());
}

fn forward() -> Option<String> {
    Some(text("m.forwarded_room_key"))
}

#[test]
fn forwarded_key_gets_its_sender_behind_the_chain() {
    let chain = vec![text("first"), text("second")];
    let key = forwarded_key(
        forward(),
        Some(text("!r:x.org")),
        Some(text("session")),
        Some(chain),
        Some(text("last")),
    )
    .expect("nothing is missing");
    assert_eq!(key.room_id, "!r:x.org");
    assert_eq!(key.session_id, "session");
    assert_eq!(key.chain, vec![text("first"), text("second"), text("last")]);
    let key = forwarded_key(forward(), Some(text("r")), Some(text("s")), Some(Vec::new()), Some(text("k")));
    assert_eq!(key.unwrap().chain, vec![text("k")]);
}

#[test]
fn what_is_no_forward_or_lacks_a_part_is_no_forwarded_key() {
    let some = || Some(text("x"));
    let chain = || Some(vec![text("c")]);
    assert!(forwarded_key(Some(text("m.room_key")), some(), some(), chain(), some()).is_none());
    assert!(forwarded_key(None, some(), some(), chain(), some()).is_none());
    assert!(forwarded_key(forward(), None, some(), chain(), some()).is_none());
    assert!(forwarded_key(forward(), some(), None, chain(), some()).is_none());
    assert!(forwarded_key(forward(), some(), some(), None, some()).is_none());
    assert!(forwarded_key(forward(), some(), some(), chain(), None).is_none());
    assert!(forwarded_key(forward(), some(), some(), chain(), some()).is_some());
}

#[test]
fn chain_is_handed_out_for_a_session_that_did_not_come_from_its_sender() {
    let chain = || Some(vec![text("a"), text("b")]);
    assert_eq!(forwarding_chain(Some(true), chain()), vec![text("a"), text("b")]);
    assert!(forwarding_chain(Some(false), chain()).is_empty());
    assert!(forwarding_chain(None, chain()).is_empty());
    assert!(forwarding_chain(Some(true), None).is_empty());
    assert!(forwarding_chain(Some(true), Some(Vec::new())).is_empty());
}

#[test]
fn sessions_are_found_by_room_and_id() {
    let keys = vec![(text("!a:x.org"), text("one")), (text("!b:x.org"), text("two"))];
    assert!(is_among(&keys, &text("!a:x.org"), &text("one")));
    assert!(is_among(&keys, &text("!b:x.org"), &text("two")));
    assert!(!is_among(&keys, &text("!a:x.org"), &text("two")));
    assert!(!is_among(&keys, &text("!c:x.org"), &text("one")));
    assert!(!is_among(&Vec::new(), &text("!a:x.org"), &text("one")));
}

#[test]
fn chain_is_kept_under_the_name_of_its_session() {
    assert_eq!(record_name("!a:x.org", "one"), "forwarding_chain|!a:x.org|one");
    assert_eq!(record_name("", ""), "forwarding_chain||");
}

#[test]
fn text_is_looked_up_in_a_list_as_it_stands() {
    let users = vec![text("@a:x.org"), text("@b:x.org")];
    assert!(is_listed(&users, "@a:x.org"));
    assert!(is_listed(&users, "@b:x.org"));
    assert!(!is_listed(&users, "@c:x.org"));
    assert!(!is_listed(&users, "@A:x.org"));
    assert!(!is_listed(&users, ""));
    assert!(!is_listed(&Vec::new(), "@a:x.org"));
}

fn scanned_flow() -> QrCode {
    QrCode {
        other_user_id: text("@bob:example.org"),
        other_device_id: text("BOBDEVICE"),
        flow_id: text("flow"),
        room_id: None,
        we_started: false,
        other_side_scanned: false,
        has_been_confirmed: false,
        reciprocated: true,
        is_done: false,
        is_cancelled: false,
        cancel_info: None,
    }
}

fn reciprocation() -> OutgoingVerificationRequest {
    OutgoingVerificationRequest::ToDevice {
        request_id: text("id"),
        event_type: text("m.key.verification.start"),
        body: text("{}"),
    }
}

#[test]
fn refused_scan_gives_nothing() {
    assert!(ScanResult::of_scan(None, None).is_none());
    assert!(ScanResult::of_scan(None, Some(reciprocation())).is_none());
    assert!(ScanResult::of_scan(Some(scanned_flow()), None).is_none());
    let result = ScanResult::of_scan(Some(scanned_flow()), Some(reciprocation())).unwrap();
    assert_eq!(result.qr.flow_id, "flow");
    assert!(result.qr.reciprocated);
    assert_eq!(result.request.request_id().as_str(), "id");
}

#[test]
fn flow_that_is_over_is_not_active() {
    assert_eq!(flow_step(true), FlowStep::NotActive);
    assert_eq!(flow_step(false), FlowStep::Proceed);
    let mut cancelled = scanned_flow();
    cancelled.is_cancelled = true;
    assert_eq!(flow_step(cancelled.is_over()), FlowStep::NotActive);
    let mut done = scanned_flow();
    done.is_done = true;
    assert_eq!(flow_step(done.is_over()), FlowStep::NotActive);
    assert_eq!(flow_step(scanned_flow().is_over()), FlowStep::Proceed);
}
