//! Where a room key came from: the chain of devices that forwarded it.
//!
//! The machine underneath keeps no such chain with a session.  It is taken
//! down here, when a sync brings a forwarded room key that the machine
//! accepts or an import brings a room key that the machine takes in, and
//! kept in the store beside the session, so that it is there again when the
//! store is opened the next time.

use vstd::prelude::*;
use vstd::string::StringExecFns;
use matrix_sdk_crypto::store::CryptoStore;
use matrix_sdk_crypto::store::RoomKeyInfo;
use matrix_sdk_crypto::CryptoStoreError as InnerStoreError;
use matrix_sdk_crypto::MegolmError;
use matrix_sdk_crypto::OlmMachine as InnerMachine;
use tokio::runtime::Runtime;
use crate::identifiers::room_id_valid;
use crate::identifiers::texts;
use crate::json::is_json;
use crate::machine::keys::parse_json_array;
use crate::machine::OlmMachine;

verus! {

#[verifier::external_type_specification]
#[verifier::external_body]
pub struct ExRoomKeyInfo(RoomKeyInfo);

/// The member of a JSON object under a name, written as JSON; nothing where
/// the text is no JSON or no object, or has no such member.  What
/// `serde_json::from_str` reads as a value, `Value::get` finds in it, and
/// `to_string` writes.
pub uninterp spec fn json_member_of(text: Seq<char>, name: Seq<char>) -> Option<Seq<char>>;

/// The text that a JSON string stands for; nothing where the JSON is no
/// string.  What `serde_json::from_str` reads as a `String`.
pub uninterp spec fn json_text_of(text: Seq<char>) -> Option<Seq<char>>;

/// The texts that a JSON array of strings stands for; nothing where the
/// JSON is no such array.  What `serde_json::from_str` reads as a list of
/// `String`s.
pub uninterp spec fn json_texts_of(text: Seq<char>) -> Option<Seq<Seq<char>>>;

/// A list of texts as a JSON array of strings: what `serde_json::to_string`
/// writes for it.
pub uninterp spec fn json_of_texts(list: Seq<Seq<char>>) -> Seq<char>;

/// Reads a member of a JSON object: `serde_json::from_str` for a value,
/// `Value::get` with the name, and `to_string` on what is found.
#[verifier::external_body]
fn json_member(text: &str, name: &str) -> (r: Option<String>)
    ensures
        r is Some ==> json_member_of(text@, name@) == Some(r->0@) && is_json(r->0@),
        r is None ==> json_member_of(text@, name@) is None,
{
    let value: serde_json::Value = serde_json::from_str(text).ok()?;
    value.get(name).map(|member| member.to_string())
}

/// Calls `serde_json::from_str` for a `String`.
#[verifier::external_body]
fn json_string(text: &str) -> (r: Option<String>)
    ensures
        r is Some ==> json_text_of(text@) == Some(r->0@),
        r is None ==> json_text_of(text@) is None,
{
    serde_json::from_str::<String>(text).ok()
}

/// Calls `serde_json::from_str` for a list of `String`s.
#[verifier::external_body]
fn json_strings(text: &str) -> (r: Option<Vec<String>>)
    ensures
        r is Some ==> json_texts_of(text@) == Some(texts(r->0@)),
        r is None ==> json_texts_of(text@) is None,
{
    serde_json::from_str::<Vec<String>>(text).ok()
}

/// Calls `serde_json::to_string` on a list of `String`s.
#[verifier::external_body]
fn strings_json(list: &Vec<String>) -> (r: Result<String, serde_json::Error>)
    ensures
        r is Ok ==> r->Ok_0@ == json_of_texts(texts(list@)) && is_json(r->Ok_0@),
{
    serde_json::to_string(list)
}

/// Reads room and session of each `RoomKeyInfo` of a list, as text.
#[verifier::external_body]
pub(crate) fn room_keys_of(keys: &Vec<RoomKeyInfo>) -> (r: Vec<(String, String)>)
    ensures
        r@.len() == keys@.len(),
{
    keys.iter().map(|k| (k.room_id.to_string(), k.session_id.clone())).collect()
}

/// Asks the store of the machine, through
/// `CryptoStore::get_inbound_group_session`, for the inbound group session
/// of a room with an id, and the session, where there is one, whether it
/// `has_been_imported`: whether it came by a forward or an import, and not
/// from its sender.
#[verifier::external_body]
fn session_imported(
    runtime: &Runtime,
    machine: &InnerMachine,
    room_id: &str,
    session_id: &str,
) -> Result<Option<bool>, MegolmError>
    requires
        room_id_valid(room_id@),
{
    let room_id = <&ruma::RoomId>::try_from(room_id).expect("a checked room id");
    let session = runtime.block_on(machine.store().get_inbound_group_session(room_id, session_id))?;
    Ok(session.map(|s| s.has_been_imported()))
}

/// Runs `CryptoStore::get_custom_value` to completion on the store of the
/// machine, and reads the value as text with `String::from_utf8`.
#[verifier::external_body]
fn stored_text(runtime: &Runtime, machine: &InnerMachine, key: &str) -> Result<
    Option<String>,
    MegolmError,
> {
    let value = runtime.block_on(machine.store().get_custom_value(key))?;
    Ok(value.and_then(|bytes| String::from_utf8(bytes).ok()))
}

/// Runs `CryptoStore::set_custom_value` to completion on the store of the
/// machine, with the bytes of a text as the value.
#[verifier::external_body]
fn store_text(runtime: &Runtime, machine: &InnerMachine, key: &str, text: &str) -> Result<
    (),
    InnerStoreError,
> {
    runtime.block_on(machine.store().set_custom_value(key, text.as_bytes().to_vec()))
}

/// A room key that came by a forward or an import.
pub struct ForwardedKey {
    /// The room of the key.
    pub room_id: String,
    /// The id of the session that the key is for.
    pub session_id: String,
    /// The curve25519 keys of the devices that forwarded the key, the one
    /// that it came from last.
    pub chain: Vec<String>,
}

/// Whether the type of an event is that of a forwarded room key.
pub open spec fn is_forward(event_type: Option<String>) -> bool {
    event_type is Some && event_type->0@ == "m.forwarded_room_key"@
}

/// The text of a member of a JSON object that is a string.
pub open spec fn text_member(text: Seq<char>, name: Seq<char>) -> Option<Seq<char>> {
    match json_member_of(text, name) {
        Some(member) => json_text_of(member),
        None => None,
    }
}

/// The name under which the chain of a session is kept in the store.
pub open spec fn record_name_text(room_id: Seq<char>, session_id: Seq<char>) -> Seq<char> {
    "forwarding_chain|"@ + room_id + "|"@ + session_id
}

/// The chain of an event, of what the store told: the chain on record where
/// the session of the event came by a forward or an import and has a chain
/// on record, and the empty chain else.
pub open spec fn chain_of(imported: Option<bool>, recorded: Option<Vec<String>>) -> Seq<String> {
    if imported == Some(true) && recorded is Some {
        recorded->0@
    } else {
        Seq::empty()
    }
}

/// Whether a session is among those of a list, by room and id.
pub open spec fn among(keys: Seq<(String, String)>, room_id: Seq<char>, session_id: Seq<char>) -> bool {
    exists|k: int| 0 <= k < keys.len() && (#[trigger] keys[k]).0@ == room_id && keys[k].1@ == session_id
}

/// The forwarded room key of an event, of what was read of it: its type,
/// the room, the session and the chain of its content, and the curve25519
/// key of the device that sent it.  There is one where the type is that of
/// a forwarded room key and nothing is missing; its chain is the chain of
/// the content with the key of the sending device behind it.
pub fn forwarded_key(
    event_type: Option<String>,
    room_id: Option<String>,
    session_id: Option<String>,
    chain: Option<Vec<String>>,
    forwarder: Option<String>,
) -> (r: Option<ForwardedKey>)
    ensures
        r is Some <==> is_forward(event_type) && room_id is Some && session_id is Some && chain
            is Some && forwarder is Some,
        r is Some ==> r->0.room_id == room_id->0 && r->0.session_id == session_id->0
            && r->0.chain@ == chain->0@.push(forwarder->0),
{
    let event_type = match event_type {
        Some(event_type) => event_type,
        None => { return None; },
    };
    let forward: bool = event_type == "m.forwarded_room_key".to_owned();
    if !forward {
        return None;
    }
    match (room_id, session_id, chain, forwarder) {
        (Some(room_id), Some(session_id), Some(chain), Some(forwarder)) => {
            let mut chain = chain;
            chain.push(forwarder);
            Some(ForwardedKey { room_id, session_id, chain })
        },
        _ => None,
    }
}

/// The chain of an event, of what the store told of its session: whether it
/// came by a forward or an import, and the chain that is on record for it.
pub fn forwarding_chain(imported: Option<bool>, recorded: Option<Vec<String>>) -> (r: Vec<String>)
    ensures
        r@ == chain_of(imported, recorded),
{
    match (imported, recorded) {
        (Some(true), Some(chain)) => chain,
        _ => Vec::new(),
    }
}

/// Whether a session is among those of a list, by room and id.
pub fn is_among(keys: &Vec<(String, String)>, room_id: &String, session_id: &String) -> (r: bool)
    ensures
        r == among(keys@, room_id@, session_id@),
{
    let mut i: usize = 0;
    while i < keys.len()
        invariant
            0 <= i <= keys.len(),
            forall|k: int|
                0 <= k < i ==> !((#[trigger] keys@[k]).0@ == room_id@ && keys@[k].1@
                    == session_id@),
        decreases keys.len() - i,
    {
        let same_room: bool = keys[i].0 == *room_id;
        let same_session: bool = keys[i].1 == *session_id;
        if same_room && same_session {
            return true;
        }
        i += 1;
    }
    false
}

/// The name under which the chain of a session is kept in the store.
pub fn record_name(room_id: &str, session_id: &str) -> (r: String)
    ensures
        r@ == record_name_text(room_id@, session_id@),
{
    let mut name = String::new();
    name.append("forwarding_chain|");
    name.append(room_id);
    name.append("|");
    name.append(session_id);
    proof {
        assert(name@ =~= record_name_text(room_id@, session_id@));
    }
    name
}

/// The text of a member of a JSON object that is a string.
fn member_text(text: &str, name: &str) -> (r: Option<String>)
    ensures
        r is Some <==> text_member(text@, name@) is Some,
        r is Some ==> r->0@ == text_member(text@, name@)->0,
{
    match json_member(text, name) {
        Some(member) => json_string(member.as_str()),
        None => None,
    }
}

/// Reads the forwarded room key of an event that a sync brought: `received`
/// is the event as the machine handed it back, decrypted, and `sent` the
/// same event as it came, which names the device that sent it.
fn read_forwarded_key(sent: &str, received: &str) -> (r: Option<ForwardedKey>)
    ensures
        r is Some ==> text_member(received@, "type"@) == Some("m.forwarded_room_key"@),
{
    let event_type = member_text(received, "type");
    let (room_id, session_id, chain) = match json_member(received, "content") {
        Some(content) => (
            member_text(content.as_str(), "room_id"),
            member_text(content.as_str(), "session_id"),
            match json_member(content.as_str(), "forwarding_curve25519_key_chain") {
                Some(chain) => json_strings(chain.as_str()),
                None => None,
            },
        ),
        None => (None, None, None),
    };
    let forwarder = match json_member(sent, "content") {
        Some(content) => member_text(content.as_str(), "sender_key"),
        None => None,
    };
    forwarded_key(event_type, room_id, session_id, chain, forwarder)
}

/// The events of the to-device part of a sync, each as JSON; none where the
/// text is no such part.
fn events_of(sync: &str) -> (r: Vec<String>)
    ensures
        r@.len() > 0 ==> json_member_of(sync@, "events"@) is Some,
{
    match json_member(sync, "events") {
        Some(events) => match parse_json_array(events.as_str()) {
            Ok(events) => events,
            Err(_) => Vec::new(),
        },
        None => Vec::new(),
    }
}

impl OlmMachine {
    /// Takes down the chain of each forwarded room key that a sync brought
    /// and the machine stored.  `sent` is the to-device part of the sync as
    /// it came, `received` as the machine handed it back, whose last events
    /// are those of the sync, one for one; `stored` are the sessions that
    /// the machine stored during the sync.
    pub(crate) fn record_forwards(
        &self,
        sent: &str,
        received: &str,
        stored: &Vec<(String, String)>,
    ) -> Result<(), InnerStoreError> {
        let sent = events_of(sent);
        let received = events_of(received);
        if received.len() < sent.len() {
            return Ok(());
        }
        let before: usize = received.len() - sent.len();
        let mut i: usize = 0;
        while i < sent.len()
            invariant
                0 <= i <= sent.len(),
                before + sent.len() == received.len(),
            decreases sent.len() - i,
        {
            match read_forwarded_key(sent[i].as_str(), received[before + i].as_str()) {
                Some(key) => {
                    if is_among(stored, &key.room_id, &key.session_id) {
                        match self.record_chain(&key) {
                            Ok(()) => {},
                            Err(e) => { return Err(e); },
                        }
                    }
                },
                None => {},
            }
            i += 1;
        }
        Ok(())
    }

    /// Puts the chain of a room key into the store, under the name of its
    /// session.
    pub(crate) fn record_chain(&self, key: &ForwardedKey) -> Result<(), InnerStoreError> {
        let name = record_name(key.room_id.as_str(), key.session_id.as_str());
        match strings_json(&key.chain) {
            Ok(text) => store_text(self.runtime(), self.inner(), name.as_str(), text.as_str()),
            Err(_) => Ok(()),
        }
    }

    /// What the store tells of the session of an encrypted event of a room:
    /// whether the session came by a forward or an import, and the chain
    /// that is on record for it.  Of an event that names no session it
    /// tells nothing.
    pub(crate) fn origin(&self, event: &str, room_id: &str) -> (r: Result<
        (Option<bool>, Option<Vec<String>>),
        MegolmError,
    >)
        requires
            room_id_valid(room_id@),
    {
        let session_id = match json_member(event, "content") {
            Some(content) => member_text(content.as_str(), "session_id"),
            None => None,
        };
        let session_id = match session_id {
            Some(session_id) => session_id,
            None => { return Ok((None, None)); },
        };
        let imported = match session_imported(
            self.runtime(),
            self.inner(),
            room_id,
            session_id.as_str(),
        ) {
            Ok(imported) => imported,
            Err(e) => { return Err(e); },
        };
        let name = record_name(room_id, session_id.as_str());
        match stored_text(self.runtime(), self.inner(), name.as_str()) {
            Ok(Some(text)) => Ok((imported, json_strings(text.as_str()))),
            Ok(None) => Ok((imported, None)),
            Err(e) => Err(e),
        }
    }
}

} // verus!
