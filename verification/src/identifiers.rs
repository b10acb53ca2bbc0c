//! Matrix identifiers as the state machine accepts them.
//!
//! Identifiers cross the API as plain strings.  Whether a string is an
//! identifier is decided by `ruma`; this module names those decisions so that
//! contracts can speak of them, and offers the list filter that every
//! batch operation applies to its members.

use vstd::prelude::*;
use ruma::IdParseError;
use crate::error::CryptoStoreError;

verus! {

#[verifier::external_type_specification]
#[verifier::external_body]
pub struct ExIdParseError(IdParseError);

/// Whether `ruma::UserId` accepts the text: what `<&UserId>::try_from`
/// decides, a function of the text alone.
pub uninterp spec fn user_id_valid(text: Seq<char>) -> bool;

/// Whether `ruma::EventId` accepts the text: what `<&EventId>::try_from`
/// decides, a function of the text alone.
pub uninterp spec fn event_id_valid(text: Seq<char>) -> bool;

/// A room identifier is any text that starts with the sigil `!`.
///
/// Identifiers of any length are admitted, and nothing is asked of what
/// follows the sigil.
pub open spec fn room_id_valid(text: Seq<char>) -> bool {
    text.len() > 0 && text[0] == '!'
}

/// The texts of a list of strings.
pub open spec fn texts(list: Seq<String>) -> Seq<Seq<char>> {
    list.map_values(|s: String| s@)
}

/// The valid user identifiers among `list`, in their order.
pub open spec fn valid_user_texts(list: Seq<String>) -> Seq<Seq<char>> {
    texts(list).filter(|t: Seq<char>| user_id_valid(t))
}

/// Whether every member of `list` is a user identifier.
pub open spec fn all_user_ids(list: Seq<String>) -> bool {
    forall|i: int| 0 <= i < list.len() ==> user_id_valid(#[trigger] list[i]@)
}

/// Calls `<&ruma::UserId>::try_from`.  Trusted: the call succeeds exactly on
/// the texts that `user_id_valid` names.
#[verifier::external_body]
pub(crate) fn check_user_id(text: &str) -> (r: Result<(), IdParseError>)
    ensures
        r is Ok <==> user_id_valid(text@),
{
    <&ruma::UserId>::try_from(text).map(|_| ())
}

/// Calls `<&ruma::RoomId>::try_from`.  Trusted: the call succeeds exactly on
/// the texts that begin with `!`, `ruma` being built to take identifiers of
/// any length.
#[verifier::external_body]
pub(crate) fn check_room_id(text: &str) -> (r: Result<(), IdParseError>)
    ensures
        r is Ok <==> room_id_valid(text@),
{
    <&ruma::RoomId>::try_from(text).map(|_| ())
}

/// Calls `<&ruma::EventId>::try_from`.  Trusted: the call succeeds exactly on
/// the texts that `event_id_valid` names.
#[verifier::external_body]
pub(crate) fn check_event_id(text: &str) -> (r: Result<(), IdParseError>)
    ensures
        r is Ok <==> event_id_valid(text@),
{
    <&ruma::EventId>::try_from(text).map(|_| ())
}

/// Whether `text` is a user identifier.
pub fn is_user_id(text: &str) -> (r: bool)
    ensures
        r == user_id_valid(text@),
{
    check_user_id(text).is_ok()
}

/// Whether `text` is a room identifier.
pub fn is_room_id(text: &str) -> (r: bool)
    ensures
        r == room_id_valid(text@),
{
    check_room_id(text).is_ok()
}

/// Whether `text` is an event identifier.
pub fn is_event_id(text: &str) -> (r: bool)
    ensures
        r == event_id_valid(text@),
{
    check_event_id(text).is_ok()
}

/// Whether `r` refuses `text` as a user identifier, and names it.
pub open spec fn refuses_user<T>(r: Result<T, CryptoStoreError>, text: Seq<char>) -> bool {
    r matches Err(CryptoStoreError::InvalidUserId(s, _)) && s@ == text
}

/// Checks a user identifier.  One that is none is handed back inside the
/// error, with what is wrong with it.
pub fn parse_user_id(user_id: &str) -> (r: Result<(), CryptoStoreError>)
    ensures
        r is Ok <==> user_id_valid(user_id@),
        r is Err ==> refuses_user(r, user_id@),
{
    match check_user_id(user_id) {
        Ok(()) => Ok(()),
        Err(e) => Err(CryptoStoreError::InvalidUserId(user_id.to_owned(), e)),
    }
}

/// Keeps the user identifiers of `list`, in order, and drops every other
/// string without complaint.
pub fn valid_user_ids(list: Vec<String>) -> (r: Vec<String>)
    ensures
        texts(r@) == valid_user_texts(list@),
        all_user_ids(r@),
        r@.len() <= list@.len(),
{
    let mut kept: Vec<String> = Vec::new();
    let n: usize = list.len();
    let mut i: usize = 0;
    proof {
        assert(texts(list@).take(0) =~= Seq::<Seq<char>>::empty());
        assert(texts(kept@) =~= Seq::<Seq<char>>::empty());
    }
    while i < n
        invariant
            n == list.len(),
            0 <= i <= n,
            texts(kept@) == texts(list@).take(i as int).filter(|t: Seq<char>| user_id_valid(t)),
            all_user_ids(kept@),
            kept@.len() <= i,
        decreases n - i,
    {
        let ghost before = texts(list@).take(i as int);
        let ghost pred = |t: Seq<char>| user_id_valid(t);
        proof {
            assert(texts(list@).take(i as int + 1) =~= before.push(list@[i as int]@));
            lemma_filter_push(before, list@[i as int]@, pred);
        }
        if is_user_id(list[i].as_str()) {
            let ghost old_kept = kept@;
            kept.push(list[i].clone());
            proof {
                assert(texts(kept@) =~= texts(old_kept).push(list@[i as int]@));
            }
        }
        i += 1;
    }
    proof {
        assert(texts(list@).take(n as int) =~= texts(list@));
    }
    kept
}

/// Filtering a sequence that ends in `last` filters what comes before, and
/// keeps `last` exactly when the predicate holds of it.
pub proof fn lemma_filter_push<A>(s: Seq<A>, last: A, pred: spec_fn(A) -> bool)
    ensures
        s.push(last).filter(pred) == if pred(last) {
            s.filter(pred).push(last)
        } else {
            s.filter(pred)
        },
{
    reveal(Seq::filter);
    assert(s.push(last).drop_last() =~= s);
}

} // verus!
