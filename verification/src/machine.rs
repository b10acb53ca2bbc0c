//! The state machine itself.
//!
//! An `OlmMachine` belongs to one device of one user.  It keeps its keys and
//! sessions in a store on disk, and is driven by calls: the host feeds it
//! what a sync brought, asks it for the requests that wait to be sent, and
//! reports the responses back.  At most one call that changes the machine
//! runs at a time; that is for the host to see to.

use vstd::prelude::*;
use std::collections::HashMap;
use matrix_sdk_crypto::CryptoStoreError as InnerStoreError;
use matrix_sdk_crypto::OlmMachine as InnerMachine;
use matrix_sdk_sqlite::SqliteCryptoStore;
use tokio::runtime::Runtime;
use crate::error::CryptoStoreError;
use crate::identifiers::parse_user_id;
use crate::identifiers::refuses_user;
use crate::identifiers::texts;
use crate::requests::OutgoingVerificationRequest;
use crate::identifiers::user_id_valid;
use crate::requests::Request;
use crate::runtime::new_runtime;

pub mod backup;
pub mod devices;
pub mod flows;
pub mod keys;
pub mod provenance;
pub mod sessions;

verus! {

#[verifier::external_type_specification]
#[verifier::external_body]
pub struct ExInnerMachine(InnerMachine);

#[verifier::external_type_specification]
#[verifier::external_body]
pub struct ExSqliteCryptoStore(SqliteCryptoStore);

/// The state machine of one device.
///
/// Beside the machine underneath, which keeps the keys and the sessions, it
/// keeps what it needs to answer for itself: the id of the claim of
/// one-time keys that is in flight, the ids of the requests that it handed
/// out, the ids of those whose responses it took in, and the verification
/// flows that were cancelled through it.
pub struct OlmMachine {
    inner: Option<InnerMachine>,
    runtime: Runtime,
    claim: Option<String>,
    acknowledged: Vec<String>,
    issued: Vec<String>,
    cancelled: Vec<(String, String)>,
}

/// The ids that are on record once `request_id` was handed out: what was on
/// record before, and the id behind it where it is new.
pub open spec fn issued_with(ids: Seq<Seq<char>>, request_id: Seq<char>) -> Seq<Seq<char>> {
    if ids.contains(request_id) {
        ids
    } else {
        ids.push(request_id)
    }
}

/// An id that is handed out is on the record from then on, and what was on
/// the record before stays there.
pub proof fn lemma_issued_stays(ids: Seq<Seq<char>>, request_id: Seq<char>, other: Seq<char>)
    ensures
        issued_with(ids, request_id).contains(request_id),
        ids.contains(other) ==> issued_with(ids, request_id).contains(other),
{
    if !ids.contains(request_id) {
        assert(ids.push(request_id)[ids.len() as int] == request_id);
        if ids.contains(other) {
            let k = choose|k: int| 0 <= k < ids.len() && ids[k] == other;
            assert(ids.push(request_id)[k] == other);
        }
    }
}

/// The users and flows of a list of pairs, as plain text.
pub open spec fn flows_of(pairs: Seq<(String, String)>) -> Seq<(Seq<char>, Seq<char>)> {
    Seq::new(pairs.len(), |i: int| (pairs[i].0@, pairs[i].1@))
}

/// A room key request together with the cancellation of the request that it
/// replaces.  Both are to-device requests.
pub struct KeyRequestPair {
    /// Cancels the request that was out for the same key, if one was.
    pub cancellation: Option<Request>,
    /// The request for the key.
    pub key_request: Request,
}

/// Runs `SqliteCryptoStore::open` to completion on the directory `path`,
/// without a passphrase.  What comes back depends on the disk.
#[verifier::external_body]
fn open_store(runtime: &Runtime, path: &str) -> Result<SqliteCryptoStore, InnerStoreError> {
    runtime.block_on(SqliteCryptoStore::open(path, None)).map_err(InnerStoreError::backend)
}

/// Runs `matrix_sdk_crypto::OlmMachine::with_store` to completion.  What
/// comes back depends on the account that the store holds.
#[verifier::external_body]
fn machine_with_store(
    runtime: &Runtime,
    user_id: &str,
    device_id: &str,
    store: SqliteCryptoStore,
) -> Result<InnerMachine, InnerStoreError>
    requires
        user_id_valid(user_id@),
{
    let user_id = <&ruma::UserId>::try_from(user_id).expect("a checked user id");
    runtime.block_on(InnerMachine::with_store(user_id, device_id.into(), store))
}

/// Reads `OlmMachine::user_id` as text.  Trusted: the text is a user
/// identifier, the machine holding the `UserId` that it was opened with.
#[verifier::external_body]
fn own_user_id(machine: &InnerMachine) -> (r: String)
    ensures
        user_id_valid(r@),
{
    machine.user_id().to_string()
}

/// Reads `OlmMachine::device_id` as text.
#[verifier::external_body]
fn own_device_id(machine: &InnerMachine) -> String {
    machine.device_id().to_string()
}

/// Runs `OlmMachine::display_name` to completion.
#[verifier::external_body]
fn own_display_name(
    runtime: &Runtime,
    machine: &InnerMachine,
) -> Result<Option<String>, InnerStoreError> {
    runtime.block_on(machine.display_name())
}

/// Reads `OlmMachine::identity_keys`: the ed25519 key and the curve25519
/// key, each in base64.
#[verifier::external_body]
fn own_identity_keys(machine: &InnerMachine) -> (String, String) {
    let keys = machine.identity_keys();
    (keys.ed25519.to_base64(), keys.curve25519.to_base64())
}

/// Whether a list names the two identity keys: the ed25519 key under
/// `ed25519`, then the curve25519 key under `curve25519`.
pub open spec fn names_identity_keys(
    entries: Seq<(String, String)>,
    ed25519: String,
    curve25519: String,
) -> bool {
    &&& entries.len() == 2
    &&& entries[0].0@ == "ed25519"@
    &&& entries[0].1 == ed25519
    &&& entries[1].0@ == "curve25519"@
    &&& entries[1].1 == curve25519
}

/// The two identity keys, each under the name of its algorithm.
pub fn identity_key_entries(ed25519: String, curve25519: String) -> (r: Vec<(String, String)>)
    ensures
        names_identity_keys(r@, ed25519, curve25519),
{
    let mut entries: Vec<(String, String)> = Vec::new();
    entries.push(("ed25519".to_owned(), ed25519));
    entries.push(("curve25519".to_owned(), curve25519));
    entries
}

impl Drop for OlmMachine {
    /// Lets go of the machine inside the runtime, with `Runtime::enter`: the
    /// store hands its connections back to the runtime's threads, and needs
    /// a runtime to be entered for that.
    #[verifier::external_body]
    fn drop(&mut self)
        opens_invariants none
        no_unwind
    {
        let _guard = self.runtime.enter();
        self.inner.take();
    }
}

impl OlmMachine {
    /// The machine is there from the moment it is opened to the moment it is
    /// dropped.
    #[verifier::type_invariant]
    spec fn opened(&self) -> bool {
        self.inner is Some
    }

    /// The id of the claim of one-time keys that is in flight: that was
    /// handed out and whose response has not come back yet.
    pub closed spec fn claim_in_flight(&self) -> Option<Seq<char>> {
        match self.claim {
            Some(id) => Some(id@),
            None => None,
        }
    }

    /// Whether a claim of one-time keys is in flight.
    pub fn has_claim_in_flight(&self) -> (r: bool)
        ensures
            r == self.claim_in_flight() is Some,
    {
        self.claim.is_some()
    }

    /// The ids of the requests whose responses the machine took in, in the
    /// order in which it took them in.
    pub closed spec fn acknowledged(&self) -> Seq<Seq<char>> {
        texts(self.acknowledged@)
    }

    /// Whether the machine took in a response to the request with this id.
    pub open spec fn was_acknowledged(&self, request_id: Seq<char>) -> bool {
        self.acknowledged().contains(request_id)
    }

    /// Whether the machine took in a response to the request with this id.
    pub fn is_acknowledged(&self, request_id: &str) -> (r: bool)
        ensures
            r == self.was_acknowledged(request_id@),
    {
        let given: String = request_id.to_owned();
        let mut i: usize = 0;
        while i < self.acknowledged.len()
            invariant
                0 <= i <= self.acknowledged.len(),
                given@ == request_id@,
                forall|k: int| 0 <= k < i ==> #[trigger] self.acknowledged()[k] != request_id@,
            decreases self.acknowledged.len() - i,
        {
            let same: bool = self.acknowledged[i] == given;
            if same {
                assert(self.acknowledged()[i as int] == request_id@);
                return true;
            }
            i += 1;
        }
        false
    }

    /// Notes that the machine took in a response to the request with this
    /// id.
    pub(crate) fn acknowledge(&mut self, request_id: &str)
        ensures
            final(self).acknowledged() == old(self).acknowledged().push(request_id@),
            final(self).claim_in_flight() == old(self).claim_in_flight(),
            final(self).issued() == old(self).issued(),
            final(self).cancelled() == old(self).cancelled(),
    {
        proof {
            use_type_invariant(&*self);
        }
        let mut ids: Vec<String> = Vec::new();
        std::mem::swap(&mut self.acknowledged, &mut ids);
        ids.push(request_id.to_owned());
        self.acknowledged = ids;
        proof {
            assert(texts(self.acknowledged@) =~= texts(old(self).acknowledged@).push(request_id@));
        }
    }

    /// The ids of the requests that the machine handed out, each once, in
    /// the order in which they first went out.
    pub closed spec fn issued(&self) -> Seq<Seq<char>> {
        texts(self.issued@)
    }

    /// Whether the machine handed out a request with this id.
    pub open spec fn was_issued(&self, request_id: Seq<char>) -> bool {
        self.issued().contains(request_id)
    }

    /// The verification flows that were cancelled through this machine, by
    /// user and flow id.
    pub closed spec fn cancelled(&self) -> Seq<(Seq<char>, Seq<char>)> {
        flows_of(self.cancelled@)
    }

    /// Whether the flow of a user was cancelled through this machine.
    pub open spec fn was_cancelled(&self, user_id: Seq<char>, flow_id: Seq<char>) -> bool {
        self.cancelled().contains((user_id, flow_id))
    }

    /// Whether the machine differs from an earlier state of it by nothing
    /// but the ids that it handed out since.
    pub open spec fn handed_out_since(&self, before: &OlmMachine) -> bool {
        &&& forall|id: Seq<char>| before.was_issued(id) ==> self.was_issued(id)
        &&& self.acknowledged() == before.acknowledged()
        &&& self.claim_in_flight() == before.claim_in_flight()
        &&& self.cancelled() == before.cancelled()
    }

    /// Whether the machine handed out a request with this id.
    pub fn is_issued(&self, request_id: &str) -> (r: bool)
        ensures
            r == self.was_issued(request_id@),
    {
        let given: String = request_id.to_owned();
        let mut i: usize = 0;
        while i < self.issued.len()
            invariant
                0 <= i <= self.issued.len(),
                given@ == request_id@,
                forall|k: int| 0 <= k < i ==> #[trigger] self.issued()[k] != request_id@,
            decreases self.issued.len() - i,
        {
            let same: bool = self.issued[i] == given;
            if same {
                assert(self.issued()[i as int] == request_id@);
                return true;
            }
            i += 1;
        }
        false
    }

    /// Notes that a request with this id was handed out.
    pub(crate) fn issue(&mut self, request_id: &str)
        ensures
            final(self).issued() == issued_with(old(self).issued(), request_id@),
            final(self).was_issued(request_id@),
            final(self).handed_out_since(old(self)),
            final(self).held_machine() == old(self).held_machine(),
    {
        proof {
            use_type_invariant(&*self);
        }
        if !self.is_issued(request_id) {
            let mut ids: Vec<String> = Vec::new();
            std::mem::swap(&mut self.issued, &mut ids);
            ids.push(request_id.to_owned());
            self.issued = ids;
            proof {
                let before = texts(old(self).issued@);
                assert(texts(self.issued@) =~= before.push(request_id@));
                assert forall|id: Seq<char>| before.contains(id) implies issued_with(
                    before,
                    request_id@,
                ).contains(id) by {
                    lemma_issued_stays(before, request_id@, id);
                }
                lemma_issued_stays(before, request_id@, request_id@);
            }
        }
    }

    /// Notes that each request of a list was handed out.
    pub(crate) fn issue_all(&mut self, requests: &Vec<Request>)
        ensures
            final(self).handed_out_since(old(self)),
            forall|k: int|
                0 <= k < requests@.len() ==> final(self).was_issued(#[trigger] requests@[k].id()),
            final(self).held_machine() == old(self).held_machine(),
    {
        let mut i: usize = 0;
        while i < requests.len()
            invariant
                0 <= i <= requests.len(),
                self.handed_out_since(old(self)),
                self.held_machine() == old(self).held_machine(),
                forall|k: int| 0 <= k < i ==> self.was_issued(#[trigger] requests@[k].id()),
            decreases requests.len() - i,
        {
            self.issue(requests[i].request_id().as_str());
            i += 1;
        }
    }

    /// Notes that a verification message was handed out, where there is
    /// one.
    pub(crate) fn issue_message(&mut self, message: &Option<OutgoingVerificationRequest>)
        ensures
            final(self).handed_out_since(old(self)),
            message is Some ==> final(self).was_issued(message->0.id()),
            final(self).held_machine() == old(self).held_machine(),
    {
        match message {
            Some(message) => self.issue(message.request_id().as_str()),
            None => {},
        }
    }

    /// Notes that each verification message of a list was handed out.
    pub(crate) fn issue_messages(&mut self, messages: &Vec<OutgoingVerificationRequest>)
        ensures
            final(self).handed_out_since(old(self)),
            forall|k: int|
                0 <= k < messages@.len() ==> final(self).was_issued(#[trigger] messages@[k].id()),
            final(self).held_machine() == old(self).held_machine(),
    {
        let mut i: usize = 0;
        while i < messages.len()
            invariant
                0 <= i <= messages.len(),
                self.handed_out_since(old(self)),
                self.held_machine() == old(self).held_machine(),
                forall|k: int| 0 <= k < i ==> self.was_issued(#[trigger] messages@[k].id()),
            decreases messages.len() - i,
        {
            self.issue(messages[i].request_id().as_str());
            i += 1;
        }
    }

    /// Whether the flow of a user was cancelled through this machine.
    pub fn is_cancelled(&self, user_id: &str, flow_id: &str) -> (r: bool)
        ensures
            r == self.was_cancelled(user_id@, flow_id@),
    {
        let user: String = user_id.to_owned();
        let flow: String = flow_id.to_owned();
        let mut i: usize = 0;
        while i < self.cancelled.len()
            invariant
                0 <= i <= self.cancelled.len(),
                user@ == user_id@,
                flow@ == flow_id@,
                forall|k: int| 0 <= k < i ==> #[trigger] self.cancelled()[k] != (user_id@, flow_id@),
            decreases self.cancelled.len() - i,
        {
            let same_user: bool = self.cancelled[i].0 == user;
            let same_flow: bool = self.cancelled[i].1 == flow;
            if same_user && same_flow {
                assert(self.cancelled()[i as int] == (user_id@, flow_id@));
                return true;
            }
            i += 1;
        }
        false
    }

    /// Notes that the flow of a user was cancelled through this machine.
    pub(crate) fn note_cancelled(&mut self, user_id: &str, flow_id: &str)
        ensures
            final(self).cancelled() == old(self).cancelled().push((user_id@, flow_id@)),
            final(self).was_cancelled(user_id@, flow_id@),
            forall|user: Seq<char>, flow: Seq<char>|
                old(self).was_cancelled(user, flow) ==> final(self).was_cancelled(user, flow),
            final(self).issued() == old(self).issued(),
            final(self).acknowledged() == old(self).acknowledged(),
            final(self).claim_in_flight() == old(self).claim_in_flight(),
            final(self).held_machine() == old(self).held_machine(),
    {
        proof {
            use_type_invariant(&*self);
        }
        let mut flows: Vec<(String, String)> = Vec::new();
        std::mem::swap(&mut self.cancelled, &mut flows);
        flows.push((user_id.to_owned(), flow_id.to_owned()));
        self.cancelled = flows;
        proof {
            let before = flows_of(old(self).cancelled@);
            assert(flows_of(self.cancelled@) =~= before.push((user_id@, flow_id@)));
            assert(before.push((user_id@, flow_id@))[before.len() as int] == (user_id@, flow_id@));
            assert forall|user: Seq<char>, flow: Seq<char>| before.contains((user, flow)) implies before.push(
                (user_id@, flow_id@),
            ).contains((user, flow)) by {
                let k = choose|k: int| 0 <= k < before.len() && before[k] == (user, flow);
                assert(before.push((user_id@, flow_id@))[k] == (user, flow));
            }
        }
    }

    /// Notes the claim that was handed out, or that none is in flight.
    pub(crate) fn set_claim(&mut self, claim: Option<String>)
        ensures
            final(self).claim_in_flight() == match claim {
                Some(id) => Some(id@),
                None => None,
            },
            final(self).acknowledged() == old(self).acknowledged(),
            final(self).issued() == old(self).issued(),
            final(self).cancelled() == old(self).cancelled(),
    {
        proof {
            use_type_invariant(&*self);
        }
        self.claim = claim;
    }

    /// Whether `request_id` is the id of the claim in flight.
    pub(crate) fn is_claim_in_flight(&self, request_id: &str) -> (r: bool)
        ensures
            r == (self.claim_in_flight() == Some(request_id@)),
    {
        match &self.claim {
            Some(id) => {
                let given: String = request_id.to_owned();
                *id == given
            },
            None => false,
        }
    }

    /// The runtime that the machine was opened with.
    pub closed spec fn held_runtime(&self) -> Runtime {
        self.runtime
    }

    /// The machine underneath, while there is one.
    pub closed spec fn held_machine(&self) -> Option<InnerMachine> {
        self.inner
    }

    /// The runtime that the machine's work runs on.
    pub(crate) fn runtime(&self) -> (r: &Runtime)
        ensures
            *r == self.held_runtime(),
    {
        &self.runtime
    }

    /// The machine underneath.
    pub(crate) fn inner(&self) -> (m: &InnerMachine)
        ensures
            self.held_machine() == Some(*m),
    {
        proof {
            use_type_invariant(self);
        }
        self.inner.as_ref().unwrap()
    }

    /// Opens the state machine of a device.
    ///
    /// `path` is the directory of the store.  A store that is new is given an
    /// account for the device; one that holds an account hands back the state
    /// it had, and refuses a user or device other than its own.
    pub fn new(user_id: &str, device_id: &str, path: &str) -> (r: Result<Self, CryptoStoreError>)
        ensures
            !user_id_valid(user_id@) ==> refuses_user(r, user_id@),
            user_id_valid(user_id@) ==> (r is Ok || r->Err_0 is CryptoStore),
            r is Ok ==> r->Ok_0.claim_in_flight() is None,
            r is Ok ==> r->Ok_0.acknowledged().len() == 0,
            r is Ok ==> r->Ok_0.issued().len() == 0,
            r is Ok ==> r->Ok_0.cancelled().len() == 0,
    {
        match parse_user_id(user_id) {
            Ok(()) => {},
            Err(e) => { return Err(e); },
        }
        let runtime = match new_runtime() {
            Ok(runtime) => runtime,
            Err(e) => { return Err(CryptoStoreError::CryptoStore(e)); },
        };
        let store = match open_store(&runtime, path) {
            Ok(store) => store,
            Err(e) => { return Err(CryptoStoreError::CryptoStore(e)); },
        };
        match machine_with_store(&runtime, user_id, device_id, store) {
            Ok(inner) => Ok(
                OlmMachine {
                    inner: Some(inner),
                    runtime,
                    claim: None,
                    acknowledged: Vec::new(),
                    issued: Vec::new(),
                    cancelled: Vec::new(),
                },
            ),
            Err(e) => Err(CryptoStoreError::CryptoStore(e)),
        }
    }

    /// The user that owns the machine: a user identifier, as the machine is
    /// opened for one only.
    pub fn user_id(&self) -> (r: String)
        ensures
            user_id_valid(r@),
    {
        own_user_id(self.inner())
    }

    /// The device that owns the machine.
    pub fn device_id(&self) -> String {
        own_device_id(self.inner())
    }

    /// The display name of our device, if the store knows one.
    pub fn display_name(&self) -> (r: Result<Option<String>, CryptoStoreError>)
        ensures
            r is Err ==> r->Err_0 is CryptoStore,
    {
        match own_display_name(&self.runtime, self.inner()) {
            Ok(name) => Ok(name),
            Err(e) => Err(CryptoStoreError::CryptoStore(e)),
        }
    }

    /// Our public identity keys in base64, under `ed25519` and `curve25519`.
    pub fn identity_keys(&self) -> HashMap<String, String> {
        let (ed25519, curve25519) = own_identity_keys(self.inner());
        let mut rest = identity_key_entries(ed25519, curve25519);
        let mut keys: HashMap<String, String> = HashMap::new();
        while rest.len() > 0
            decreases rest.len(),
        {
            let (name, key) = rest.remove(0);
            keys.insert(name, key);
        }
        keys
    }
}

} // verus!
