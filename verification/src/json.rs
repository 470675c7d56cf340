//! Reading single fields of JSON documents.
use vstd::prelude::*;

verus! {

/// The text at `key` of the JSON document `doc`: `None` when `doc` is not JSON, `Some(None)`
/// when the document has no text at that key.
pub uninterp spec fn json_text(doc: Seq<char>, key: Seq<char>) -> Option<Option<Seq<char>>>;

/// The text at `outer`, then `inner`, of the JSON document `doc`, as for `json_text`.
pub uninterp spec fn json_text_in(doc: Seq<char>, outer: Seq<char>, inner: Seq<char>) -> Option<Option<Seq<char>>>;

/// The boolean at `outer`, then `inner`, of the JSON document `doc`.
pub uninterp spec fn json_bool_in(doc: Seq<char>, outer: Seq<char>, inner: Seq<char>) -> Option<Option<bool>>;

/// The integer at `outer`, then `inner`, of the JSON document `doc`.
pub uninterp spec fn json_int_in(doc: Seq<char>, outer: Seq<char>, inner: Seq<char>) -> Option<Option<i64>>;

/// Whether the value at `key` of the JSON document `doc` is `null` (or missing);
/// `None` when `doc` is not JSON.
pub uninterp spec fn json_null(doc: Seq<char>, key: Seq<char>) -> Option<bool>;

/// Parses `doc` with `serde_json::from_str` into a `serde_json::Value` and reads the value
/// at `key` with `Value::index` and `Value::as_str`. Claims only that the answer is
/// `json_text(doc, key)`: a function of the two texts.
#[verifier::external_body]
pub(crate) fn json_text_at(doc: &str, key: &str) -> (r: Option<Option<String>>)
    ensures
        json_text(doc@, key@) == (match r {
            Some(Some(s)) => Some(Some(s@)),
            Some(None) => Some(None::<Seq<char>>),
            None => None::<Option<Seq<char>>>,
        }),
{
    match serde_json::from_str::<serde_json::Value>(doc) {
        Ok(v) => Some(v[key].as_str().map(|s| s.to_owned())),
        Err(_) => None,
    }
}

/// Parses `doc` with `serde_json::from_str` and reads `value[outer][inner]` with
/// `Value::index` and `Value::as_str`; the answer is `json_text_in(doc, outer, inner)`.
#[verifier::external_body]
pub(crate) fn json_text_in_at(doc: &str, outer: &str, inner: &str) -> (r: Option<Option<String>>)
    ensures
        json_text_in(doc@, outer@, inner@) == (match r {
            Some(Some(s)) => Some(Some(s@)),
            Some(None) => Some(None::<Seq<char>>),
            None => None::<Option<Seq<char>>>,
        }),
{
    match serde_json::from_str::<serde_json::Value>(doc) {
        Ok(v) => Some(v[outer][inner].as_str().map(|s| s.to_owned())),
        Err(_) => None,
    }
}

/// Parses `doc` with `serde_json::from_str` and reads `value[outer][inner]` with
/// `Value::index` and `Value::as_bool`; the answer is `json_bool_in(doc, outer, inner)`.
#[verifier::external_body]
pub(crate) fn json_bool_in_at(doc: &str, outer: &str, inner: &str) -> (r: Option<Option<bool>>)
    ensures
        json_bool_in(doc@, outer@, inner@) == r,
{
    match serde_json::from_str::<serde_json::Value>(doc) {
        Ok(v) => Some(v[outer][inner].as_bool()),
        Err(_) => None,
    }
}

/// Parses `doc` with `serde_json::from_str` and reads `value[outer][inner]` with
/// `Value::index` and `Value::as_i64`; the answer is `json_int_in(doc, outer, inner)`.
#[verifier::external_body]
pub(crate) fn json_int_in_at(doc: &str, outer: &str, inner: &str) -> (r: Option<Option<i64>>)
    ensures
        json_int_in(doc@, outer@, inner@) == r,
{
    match serde_json::from_str::<serde_json::Value>(doc) {
        Ok(v) => Some(v[outer][inner].as_i64()),
        Err(_) => None,
    }
}

/// Parses `doc` with `serde_json::from_str` and asks `Value::is_null` of `value[key]`;
/// the answer is `json_null(doc, key)`.
#[verifier::external_body]
pub(crate) fn json_null_at(doc: &str, key: &str) -> (r: Option<bool>)
    ensures
        json_null(doc@, key@) == r,
{
    match serde_json::from_str::<serde_json::Value>(doc) {
        Ok(v) => Some(v[key].is_null()),
        Err(_) => None,
    }
}

} // verus!
