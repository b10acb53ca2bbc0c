//! Room keys in and out of the machine, cross-signing keys, and signing.

use vstd::prelude::*;
use vstd::string::StringSliceAdditionalSpecFns;
use std::collections::BTreeMap;
use std::collections::BTreeSet;
use std::collections::HashMap;
use std::io::Cursor;
use matrix_sdk_crypto::olm::ExportedRoomKey;
use matrix_sdk_crypto::RoomKeyImportResult;
use matrix_sdk_crypto::types::InvalidSignature;
use matrix_sdk_crypto::types::Signature;
use matrix_sdk_crypto::CrossSigningBootstrapRequests;
use matrix_sdk_crypto::CrossSigningKeyExport as InnerCrossSigningKeyExport;
use matrix_sdk_crypto::CrossSigningStatus as InnerCrossSigningStatus;
use matrix_sdk_crypto::CryptoStoreError as InnerStoreError;
use matrix_sdk_crypto::KeyExportError;
use matrix_sdk_crypto::OlmMachine as InnerMachine;
use matrix_sdk_crypto::SecretImportError as InnerSecretImportError;
use tokio::runtime::Runtime;
use crate::error::CryptoStoreError;
use crate::identifiers::lemma_filter_push;
use crate::identifiers::texts;
use crate::error::KeyImportError;
use crate::error::SecretImportError;
use crate::machine::provenance::is_among;
use crate::machine::provenance::ForwardedKey;
use crate::machine::OlmMachine;
use crate::recovery_key::unsigned_rounds;
use crate::requests::BootstrapCrossSigningResult;
use crate::requests::KeysImportResult;
use crate::types::report_progress;
use crate::types::CrossSigningKeyExport;
use crate::types::CrossSigningStatus;
use crate::types::ProgressListener;

verus! {

#[verifier::external_type_specification]
#[verifier::external_body]
pub struct ExExportedRoomKey(ExportedRoomKey);

#[verifier::external_type_specification]
#[verifier::external_body]
pub struct ExRoomKeyImportResult(RoomKeyImportResult);

/// The number of room keys that an export holds under a passphrase, if it is
/// an export and the passphrase opens it: the length of what
/// `decrypt_room_key_export` returns.
pub uninterp spec fn exported_key_count(export: Seq<char>, passphrase: Seq<char>) -> Option<nat>;

/// The line that the text of an export begins with.
pub open spec fn first_frame_line() -> Seq<u8> {
    "-----BEGIN MEGOLM SESSION DATA-----".spec_bytes()
}

/// The line that the text of an export ends with.
pub open spec fn last_frame_line() -> Seq<u8> {
    "-----END MEGOLM SESSION DATA-----".spec_bytes()
}

/// The least number of payload characters that is taken for an export.
/// An export has 37 bytes before its ciphertext and a tag of 32 bytes
/// behind it; with a ciphertext of two bytes, where it holds no room key,
/// that makes 95 characters of base64.  With 94 characters, of which at
/// most two are padding, it has 69 bytes or more, so that the tag begins
/// where the ciphertext begins, or later.
pub const SHORTEST_PAYLOAD: usize = 94;

/// The number of bytes from `from` to the end of its line: to the next line
/// feed, or to the end of the text.
pub open spec fn line_len(bytes: Seq<u8>, from: int) -> nat
    decreases bytes.len() - from,
{
    if from < 0 || from >= bytes.len() || bytes[from] == 10u8 {
        0
    } else {
        1 + line_len(bytes, from + 1)
    }
}

/// Whether the bytes from `from` to `end` begin with a word.
pub open spec fn begins_with(bytes: Seq<u8>, from: int, end: int, word: Seq<u8>) -> bool {
    from + word.len() <= end && bytes.subrange(from, from + word.len()) == word
}

/// The number of the bytes from `from` to `end` that are no carriage
/// return.
pub open spec fn counted(bytes: Seq<u8>, from: int, end: int) -> nat
    decreases end - from,
{
    if from >= end {
        0
    } else if bytes[from] == 13u8 {
        counted(bytes, from + 1, end)
    } else {
        1 + counted(bytes, from + 1, end)
    }
}

/// What a line adds to the payload: nothing where it begins with one of
/// the two frame lines, else its bytes but for carriage returns.
pub open spec fn line_payload(bytes: Seq<u8>, from: int, end: int) -> nat {
    if begins_with(bytes, from, end, first_frame_line()) || begins_with(
        bytes,
        from,
        end,
        last_frame_line(),
    ) {
        0
    } else {
        counted(bytes, from, end)
    }
}

/// The number of payload bytes in the lines of a text from `from` on, a line
/// beginning there.
pub open spec fn payload_from(bytes: Seq<u8>, from: int) -> nat
    decreases bytes.len() - from,
{
    if from < 0 || from >= bytes.len() {
        0
    } else {
        let end = from + line_len(bytes, from);
        if end < bytes.len() {
            line_payload(bytes, from, end) + payload_from(bytes, end + 1)
        } else {
            line_payload(bytes, from, end)
        }
    }
}

/// Whether the text of an export has a payload that is long enough to hold
/// what comes before and behind its ciphertext.
pub open spec fn long_enough(export: &str) -> bool {
    payload_from(export.spec_bytes(), 0) >= SHORTEST_PAYLOAD
}

/// The elements of a text that is a JSON array, each written as JSON: what
/// `serde_json::from_str` reads as a list of values, each value written by
/// its `to_string`.
pub uninterp spec fn json_array_items(text: Seq<char>) -> Option<Seq<Seq<char>>>;

/// Whether a text is a room key: whether `serde_json::from_str` reads an
/// `ExportedRoomKey` from it.
pub uninterp spec fn is_room_key(text: Seq<char>) -> bool;

/// The number of elements of a text that is a JSON array.
pub open spec fn json_array_len(text: Seq<char>) -> Option<nat> {
    match json_array_items(text) {
        Some(items) => Some(items.len()),
        None => None,
    }
}

/// The room keys among texts, in their order.
pub open spec fn room_keys_in(items: Seq<Seq<char>>) -> Seq<Seq<char>> {
    items.filter(|t: Seq<char>| is_room_key(t))
}

/// The number of room keys among the elements of a text that is a JSON
/// array.
pub open spec fn room_key_count(text: Seq<char>) -> Option<nat> {
    match json_array_items(text) {
        Some(items) => Some(room_keys_in(items).len()),
        None => None,
    }
}

/// Runs `OlmMachine::export_room_keys` to completion, for every room key.
#[verifier::external_body]
fn export_room_keys(
    runtime: &Runtime,
    machine: &InnerMachine,
) -> Result<Vec<ExportedRoomKey>, InnerStoreError> {
    runtime.block_on(machine.export_room_keys(|_| true))
}

/// Calls `matrix_sdk_crypto::encrypt_room_key_export`.  Trusted: the export
/// opens under its passphrase and holds as many keys as were given,
/// `decrypt_room_key_export` undoing what this call does.
#[verifier::external_body]
fn encrypt_export(keys: &Vec<ExportedRoomKey>, passphrase: &str, rounds: u32) -> (r: Result<
    String,
    serde_json::Error,
>)
    ensures
        r is Ok ==> exported_key_count(r->Ok_0@, passphrase@) == Some(keys@.len()),
{
    matrix_sdk_crypto::encrypt_room_key_export(keys, passphrase, rounds)
}

/// Calls `matrix_sdk_crypto::decrypt_room_key_export` on the text of an
/// export.  The call aborts on a payload that decodes to less than the 37
/// bytes before the ciphertext and the 32 bytes of the tag behind it, 69 in
/// all.  Its payload is what the lines hold that begin with neither of the
/// two frame lines, which is no less than `payload_count` counts; and 94
/// characters of base64, of which at most two are padding, decode to 69
/// bytes or more.
#[verifier::external_body]
fn decrypt_export(export: &str, passphrase: &str) -> (r: Result<
    Vec<ExportedRoomKey>,
    KeyExportError,
>)
    requires
        long_enough(export),
    ensures
        r is Ok ==> exported_key_count(export@, passphrase@) == Some(r->Ok_0@.len()),
        r is Err ==> exported_key_count(export@, passphrase@) is None,
{
    matrix_sdk_crypto::decrypt_room_key_export(Cursor::new(export), passphrase)
}

/// Makes the `KeyExportError` of a text that ends too early: its `Io`, of
/// `ErrorKind::UnexpectedEof`.
#[verifier::external_body]
fn export_cut_short() -> KeyExportError {
    KeyExportError::Io(std::io::ErrorKind::UnexpectedEof.into())
}

/// Calls `serde_json::from_str` for a list of JSON values, and writes each
/// value as JSON with its `to_string`.
#[verifier::external_body]
pub(crate) fn parse_json_array(text: &str) -> (r: Result<Vec<String>, serde_json::Error>)
    ensures
        r is Ok ==> json_array_items(text@) == Some(texts(r->Ok_0@)),
        r is Err ==> json_array_items(text@) is None,
{
    let values: Vec<serde_json::Value> = serde_json::from_str(text)?;
    Ok(values.iter().map(|v| v.to_string()).collect())
}

/// Calls `serde_json::from_str` for an `ExportedRoomKey`.
#[verifier::external_body]
fn room_key_of(text: &str) -> (r: Option<ExportedRoomKey>)
    ensures
        r is Some <==> is_room_key(text@),
{
    serde_json::from_str(text).ok()
}

/// Reads room, session and forwarding chain of an `ExportedRoomKey`, the
/// keys of the chain in base64.
#[verifier::external_body]
fn exported_origin(key: &ExportedRoomKey) -> (String, String, Vec<String>) {
    let chain = key.forwarding_curve25519_key_chain.iter().map(|k| k.to_base64()).collect();
    (key.room_id.to_string(), key.session_id.clone(), chain)
}

/// Runs `OlmMachine::import_room_keys` to completion, and hands back the
/// number of keys imported, the number of keys given, and the result
/// itself.  The second number is the length of `keys`, and the first is no
/// greater.
#[verifier::external_body]
#[allow(deprecated)]
fn import_room_keys(
    runtime: &Runtime,
    machine: &InnerMachine,
    keys: Vec<ExportedRoomKey>,
    from_backup: bool,
    listener: &Box<dyn ProgressListener>,
) -> (r: Result<(usize, usize, RoomKeyImportResult), InnerStoreError>)
    ensures
        r is Ok ==> r->Ok_0.1 == keys@.len() && r->Ok_0.0 <= r->Ok_0.1,
{
    let progress = |done: usize, total: usize| report_progress(listener, done, total);
    let result = runtime.block_on(machine.import_room_keys(keys, from_backup, progress))?;
    Ok((result.imported_count, result.total_count, result))
}

/// Reads the sessions that an import took in, as text: by room, then by
/// sender key, the session ids.
#[verifier::external_body]
fn imported_by_room(result: &RoomKeyImportResult) -> HashMap<String, HashMap<String, Vec<String>>> {
    let ids = |m: &BTreeMap<String, BTreeSet<String>>| {
        m.iter().map(|(s, k)| (s.clone(), k.iter().cloned().collect())).collect()
    };
    result.keys.iter().map(|(r, m)| (r.to_string(), ids(m))).collect()
}

/// Reads the sessions that an import took in, as text: room and session id
/// of each.
#[verifier::external_body]
fn imported_sessions(result: &RoomKeyImportResult) -> Vec<(String, String)> {
    let sessions = |(room, senders): (&ruma::OwnedRoomId, &BTreeMap<String, BTreeSet<String>>)| {
        senders.values().flatten().map(|id| (room.to_string(), id.clone())).collect::<Vec<_>>()
    };
    result.keys.iter().flat_map(sessions).collect()
}

/// Runs `OlmMachine::bootstrap_cross_signing` to completion, asking for a
/// new identity in any case.  Asked so, the call makes the identity and
/// takes its public half at once, which a new identity always has; the
/// signing of the account by an identity that was there before, which can
/// abort, is on the path that is not taken.
#[verifier::external_body]
fn bootstrap(
    runtime: &Runtime,
    machine: &InnerMachine,
) -> Result<CrossSigningBootstrapRequests, InnerStoreError> {
    runtime.block_on(machine.bootstrap_cross_signing(true))
}

/// Runs `OlmMachine::cross_signing_status` to completion.
#[verifier::external_body]
fn signing_status(runtime: &Runtime, machine: &InnerMachine) -> InnerCrossSigningStatus {
    runtime.block_on(machine.cross_signing_status())
}

/// Runs `OlmMachine::export_cross_signing_keys` to completion.
#[verifier::external_body]
fn export_signing_keys(
    runtime: &Runtime,
    machine: &InnerMachine,
) -> Result<Option<InnerCrossSigningKeyExport>, InnerStoreError> {
    runtime.block_on(machine.export_cross_signing_keys())
}

/// Runs `OlmMachine::import_cross_signing_keys` to completion.
#[verifier::external_body]
fn import_signing_keys(
    runtime: &Runtime,
    machine: &InnerMachine,
    export: InnerCrossSigningKeyExport,
) -> Result<(), InnerSecretImportError> {
    runtime.block_on(machine.import_cross_signing_keys(export)).map(|_| ())
}

/// Runs `OlmMachine::sign` to completion, and writes the signatures as text:
/// by user, then by key id, the signature in base64, or as it came where it
/// could not be read.
#[verifier::external_body]
fn sign_message(
    runtime: &Runtime,
    machine: &InnerMachine,
    message: &str,
) -> Result<HashMap<String, HashMap<String, String>>, InnerStoreError> {
    let signatures = runtime.block_on(machine.sign(message))?;
    let text = |s: Result<Signature, InvalidSignature>| s.map_or_else(|e| e.source, |s| s.to_base64());
    Ok(signatures
        .into_iter()
        .map(|(u, m)| (u.to_string(), m.into_iter().map(|(k, s)| (k.to_string(), text(s))).collect()))
        .collect())
}

/// The room keys among a list of JSON texts, in the order of the list; a
/// text that is no room key is passed over.
fn room_keys_among(values: &Vec<String>) -> (r: Vec<ExportedRoomKey>)
    ensures
        r@.len() == room_keys_in(texts(values@)).len(),
        r@.len() <= values@.len(),
{
    let mut out: Vec<ExportedRoomKey> = Vec::new();
    let mut i: usize = 0;
    proof {
        assert(texts(values@).take(0) =~= Seq::<Seq<char>>::empty());
    }
    while i < values.len()
        invariant
            0 <= i <= values.len(),
            out@.len() == room_keys_in(texts(values@).take(i as int)).len(),
            out@.len() <= i,
        decreases values.len() - i,
    {
        proof {
            let before = texts(values@).take(i as int);
            assert(texts(values@).take(i as int + 1) =~= before.push(values@[i as int]@));
            lemma_filter_push(before, values@[i as int]@, |t: Seq<char>| is_room_key(t));
        }
        match room_key_of(values[i].as_str()) {
            Some(key) => out.push(key),
            None => {},
        }
        i += 1;
    }
    proof {
        assert(texts(values@).take(values.len() as int) =~= texts(values@));
    }
    out
}

/// Whether the bytes from `from` to `end` begin with a word.
fn begins(bytes: &[u8], from: usize, end: usize, word: &[u8]) -> (r: bool)
    requires
        from <= end <= bytes@.len(),
    ensures
        r == begins_with(bytes@, from as int, end as int, word@),
{
    if end - from < word.len() {
        return false;
    }
    let mut k: usize = 0;
    while k < word.len()
        invariant
            0 <= k <= word@.len(),
            from + word@.len() <= end <= bytes@.len(),
            forall|j: int| 0 <= j < k ==> bytes@[from + j] == word@[j],
        decreases word.len() - k,
    {
        if bytes[from + k] != word[k] {
            proof {
                assert(bytes@.subrange(from as int, from + word@.len())[k as int] != word@[k as int]);
            }
            return false;
        }
        k += 1;
    }
    proof {
        assert(bytes@.subrange(from as int, from + word@.len()) =~= word@);
    }
    true
}

/// The number of the bytes from `from` to `end` that are no carriage
/// return.
fn count_plain(bytes: &[u8], from: usize, end: usize) -> (r: usize)
    requires
        from <= end <= bytes@.len(),
    ensures
        r == counted(bytes@, from as int, end as int),
        r <= end - from,
{
    let mut j: usize = end;
    let mut found: usize = 0;
    while j > from
        invariant
            from <= j <= end <= bytes@.len(),
            found == counted(bytes@, j as int, end as int),
            found <= end - j,
        decreases j - from,
    {
        j -= 1;
        if bytes[j] != 13u8 {
            found += 1;
        }
    }
    found
}

/// The end of the line that begins at `from`: the place of the next line
/// feed, or the end of the text.
fn end_of_line(bytes: &[u8], from: usize) -> (r: usize)
    requires
        from <= bytes@.len(),
    ensures
        r == from + line_len(bytes@, from as int),
        from <= r <= bytes@.len(),
{
    let mut end: usize = from;
    while end < bytes.len() && bytes[end] != 10u8
        invariant
            from <= end <= bytes@.len(),
            line_len(bytes@, from as int) == (end - from) + line_len(bytes@, end as int),
        decreases bytes.len() - end,
    {
        end += 1;
    }
    end
}

/// The number of payload bytes of the text of an export: of the bytes of
/// the lines that begin with neither of the two frame lines, carriage
/// returns left out.
pub fn payload_count(export: &str) -> (r: usize)
    ensures
        r == payload_from(export.spec_bytes(), 0),
        r >= SHORTEST_PAYLOAD <==> long_enough(export),
{
    let bytes = export.as_bytes();
    let first = "-----BEGIN MEGOLM SESSION DATA-----".as_bytes();
    let last = "-----END MEGOLM SESSION DATA-----".as_bytes();
    let mut from: usize = 0;
    let mut total: usize = 0;
    while from < bytes.len()
        invariant
            from <= bytes@.len(),
            total <= from,
            bytes@ == export.spec_bytes(),
            first@ == first_frame_line(),
            last@ == last_frame_line(),
            total + payload_from(bytes@, from as int) == payload_from(bytes@, 0),
        decreases bytes.len() - from,
    {
        let end = end_of_line(bytes, from);
        if !begins(bytes, from, end, first) && !begins(bytes, from, end, last) {
            total += count_plain(bytes, from, end);
        }
        from = if end < bytes.len() { end + 1 } else { end };
    }
    total
}

/// Room, session and chain of each room key of a list, in the order of the
/// list.
fn origins_of(keys: &Vec<ExportedRoomKey>) -> (r: Vec<ForwardedKey>)
    ensures
        r@.len() == keys@.len(),
{
    let mut out: Vec<ForwardedKey> = Vec::new();
    let mut i: usize = 0;
    while i < keys.len()
        invariant
            0 <= i <= keys.len(),
            out@.len() == i,
        decreases keys.len() - i,
    {
        let (room_id, session_id, chain) = exported_origin(&keys[i]);
        out.push(ForwardedKey { room_id, session_id, chain });
        i += 1;
    }
    out
}

impl OlmMachine {
    /// All our room keys, encrypted under a passphrase, as the text of an
    /// export file.
    ///
    /// `rounds` is the number of PBKDF2 rounds that stretch the passphrase;
    /// a negative number is read as the unsigned number with the same 32
    /// bits.  The export opens under the passphrase: `import_keys` takes it.
    pub fn export_keys(&self, passphrase: &str, rounds: i32) -> (r: Result<
        String,
        CryptoStoreError,
    >)
        ensures
            r is Ok ==> exported_key_count(r->Ok_0@, passphrase@) is Some,
            r is Err ==> r->Err_0 is CryptoStore || r->Err_0 is Serialization,
    {
        let keys = match export_room_keys(&self.runtime, self.inner()) {
            Ok(keys) => keys,
            Err(e) => { return Err(CryptoStoreError::CryptoStore(e)); },
        };
        match encrypt_export(&keys, passphrase, unsigned_rounds(rounds)) {
            Ok(export) => Ok(export),
            Err(e) => Err(CryptoStoreError::Serialization(e)),
        }
    }

    /// Imports a list of room keys and tells `progress_listener` of every
    /// key that was handled.  Keys that come from the backup are marked as
    /// backed up.
    ///
    /// A key is imported where the machine does not hold its session yet, or
    /// holds a worse version of it.  `total` is the length of the list.  With
    /// each key that is imported goes its chain of forwarding devices, into
    /// the store, for `decrypt_room_event` to hand out.
    pub(crate) fn import_keys_helper(
        &self,
        keys: Vec<ExportedRoomKey>,
        from_backup: bool,
        progress_listener: Box<dyn ProgressListener>,
    ) -> (r: Result<KeysImportResult, KeyImportError>)
        ensures
            r is Err ==> r->Err_0 is CryptoStore,
            r is Ok && keys@.len() <= i64::MAX ==> r->Ok_0.total == keys@.len() && 0
                <= r->Ok_0.imported <= r->Ok_0.total,
    {
        let origins = origins_of(&keys);
        let (imported, total, result) = match import_room_keys(
            &self.runtime,
            self.inner(),
            keys,
            from_backup,
            &progress_listener,
        ) {
            Ok(result) => result,
            Err(e) => { return Err(KeyImportError::CryptoStore(e)); },
        };
        let taken = imported_sessions(&result);
        let mut i: usize = 0;
        while i < origins.len()
            invariant
                0 <= i <= origins.len(),
            decreases origins.len() - i,
        {
            if is_among(&taken, &origins[i].room_id, &origins[i].session_id) {
                match self.record_chain(&origins[i]) {
                    Ok(()) => {},
                    Err(e) => { return Err(KeyImportError::CryptoStore(e)); },
                }
            }
            i += 1;
        }
        Ok(KeysImportResult::from_counts(imported, total, imported_by_room(&result)))
    }

    /// Imports the room keys of an export file.
    ///
    /// `keys` is the text of the file and `passphrase` what it was encrypted
    /// under.  Where the text is no export, or the passphrase does not open
    /// it, the call fails with `Export` and nothing is imported.  A text
    /// whose payload is shorter than that of any export is refused at once,
    /// as one that ends too early.
    pub fn import_keys(
        &self,
        keys: &str,
        passphrase: &str,
        progress_listener: Box<dyn ProgressListener>,
    ) -> (r: Result<KeysImportResult, KeyImportError>)
        ensures
            !long_enough(keys) ==> r is Err && r->Err_0 is Export,
            exported_key_count(keys@, passphrase@) is None ==> r is Err && r->Err_0 is Export,
            long_enough(keys) && exported_key_count(keys@, passphrase@) is Some && r is Err
                ==> r->Err_0 is CryptoStore,
            r is Ok && exported_key_count(keys@, passphrase@)->0 <= i64::MAX ==> r->Ok_0.total
                == exported_key_count(keys@, passphrase@)->0 && 0 <= r->Ok_0.imported
                <= r->Ok_0.total,
    {
        if payload_count(keys) < SHORTEST_PAYLOAD {
            return Err(KeyImportError::Export(export_cut_short()));
        }
        match decrypt_export(keys, passphrase) {
            Ok(keys) => self.import_keys_helper(keys, false, progress_listener),
            Err(e) => Err(KeyImportError::Export(e)),
        }
    }

    /// Imports room keys that are not encrypted: what the caller decrypted
    /// from the server-side backup.  Every key that is imported is marked as
    /// backed up.
    ///
    /// `keys` is a JSON array.  An element that is no room key is passed
    /// over; a text that is no JSON array fails with `Json`.
    pub fn import_decrypted_keys(&self, keys: &str, progress_listener: Box<dyn ProgressListener>) -> (r:
        Result<KeysImportResult, KeyImportError>)
        ensures
            json_array_len(keys@) is None ==> r is Err && r->Err_0 is Json,
            json_array_len(keys@) is Some && r is Err ==> r->Err_0 is CryptoStore,
            r is Ok && json_array_len(keys@)->0 <= i64::MAX ==> r->Ok_0.total == room_key_count(
                keys@,
            )->0 && 0 <= r->Ok_0.imported <= r->Ok_0.total <= json_array_len(keys@)->0,
    {
        let values = match parse_json_array(keys) {
            Ok(values) => values,
            Err(e) => { return Err(KeyImportError::Json(e)); },
        };
        let keys = room_keys_among(&values);
        self.import_keys_helper(keys, true, progress_listener)
    }

    /// Makes a new cross-signing identity, and hands back what has to be
    /// sent to publish it.  An identity that was there before is replaced.
    pub fn bootstrap_cross_signing(&mut self) -> (r: Result<
        BootstrapCrossSigningResult,
        CryptoStoreError,
    >)
        ensures
            r is Ok ==> r->Ok_0.well_formed(),
            r is Err ==> r->Err_0 is CryptoStore || r->Err_0 is Serialization,
            final(self).handed_out_since(old(self)),
            r is Ok && r->Ok_0.upload_keys_request is Some ==> final(self).was_issued(
                r->Ok_0.upload_keys_request->0.id(),
            ),
    {
        let requests = match bootstrap(&self.runtime, self.inner()) {
            Ok(requests) => requests,
            Err(e) => { return Err(CryptoStoreError::CryptoStore(e)); },
        };
        match BootstrapCrossSigningResult::from_requests(&requests) {
            Ok(r) => {
                match &r.upload_keys_request {
                    Some(upload) => self.issue(upload.request_id().as_str()),
                    None => {},
                }
                Ok(r)
            },
            Err(e) => Err(CryptoStoreError::Serialization(e)),
        }
    }

    /// Which of our private cross-signing keys this device holds.
    pub fn cross_signing_status(&self) -> CrossSigningStatus {
        CrossSigningStatus::from_inner(&signing_status(&self.runtime, self.inner()))
    }

    /// Our private cross-signing keys, or nothing where we hold none.
    pub fn export_cross_signing_keys(&self) -> (r: Result<
        Option<CrossSigningKeyExport>,
        CryptoStoreError,
    >)
        ensures
            r is Err ==> r->Err_0 is CryptoStore,
    {
        match export_signing_keys(&self.runtime, self.inner()) {
            Ok(Some(export)) => Ok(Some(CrossSigningKeyExport::from_inner(&export))),
            Ok(None) => Ok(None),
            Err(e) => Err(CryptoStoreError::CryptoStore(e)),
        }
    }

    /// Takes in private cross-signing keys.  A key that does not belong to
    /// the public identity is refused.
    pub fn import_cross_signing_keys(&self, export: CrossSigningKeyExport) -> (r: Result<
        (),
        SecretImportError,
    >)
        ensures
            r is Err ==> r->Err_0 is Import,
    {
        match import_signing_keys(&self.runtime, self.inner(), export.into_inner()) {
            Ok(()) => Ok(()),
            Err(e) => Err(SecretImportError::Import(e)),
        }
    }

    /// Signs a message with the key of our device and, where we hold it,
    /// with our master key.  The signatures come back by user, then by key
    /// id.
    pub fn sign(&self, message: &str) -> (r: Result<
        HashMap<String, HashMap<String, String>>,
        CryptoStoreError,
    >)
        ensures
            r is Err ==> r->Err_0 is CryptoStore,
    {
        match sign_message(&self.runtime, self.inner(), message) {
            Ok(signatures) => Ok(signatures),
            Err(e) => Err(CryptoStoreError::CryptoStore(e)),
        }
    }
}

} // verus!
