//! JSON texts, as far as the state machine looks at them.

use vstd::prelude::*;
use ruma::serde::Raw;

verus! {

/// Whether a text is one JSON value: what `serde_json::from_str` decides for
/// a `ruma::serde::Raw`, a function of the text alone.
pub uninterp spec fn is_json(text: Seq<char>) -> bool;

/// Calls `serde_json::from_str` for a `Raw` value, which keeps the text as it
/// is and asks only that it be JSON.
#[verifier::external_body]
pub(crate) fn check_json(text: &str) -> (r: Result<(), serde_json::Error>)
    ensures
        r is Ok <==> is_json(text@),
{
    serde_json::from_str::<Raw<serde_json::Value>>(text).map(|_| ())
}

/// Makes a `serde_json::Error` that carries `message`, with
/// `serde::ser::Error::custom`.
#[verifier::external_body]
pub(crate) fn json_error(message: &str) -> serde_json::Error {
    <serde_json::Error as serde::ser::Error>::custom(message)
}

/// Whether `text` is one JSON value.
pub fn is_json_text(text: &str) -> (r: bool)
    ensures
        r == is_json(text@),
{
    check_json(text).is_ok()
}

} // verus!
