//! Structured documents, read through `serde_json`.
//!
//! A document is held as an opaque `serde_json::Value`. What the pipeline reads
//! of it is named here: the keys of its top-level object, and which of those
//! keys hold an integer, a string or null.
use vstd::prelude::*;

verus! {

#[verifier::external_type_specification]
#[verifier::external_body]
pub struct ExValue(serde_json::Value);

/// The keys of the document's top-level object (none if it is not an object).
pub uninterp spec fn doc_keys(v: serde_json::Value) -> Set<Seq<char>>;

/// The top-level keys whose value is an integer that fits in `i64`, with that integer.
pub uninterp spec fn doc_ints(v: serde_json::Value) -> Map<Seq<char>, int>;

/// The top-level keys whose value is a string, with that string.
pub uninterp spec fn doc_strs(v: serde_json::Value) -> Map<Seq<char>, Seq<char>>;

/// The top-level keys whose value is null.
pub uninterp spec fn doc_nulls(v: serde_json::Value) -> Set<Seq<char>>;

/// The document that a text parses to, `None` when it is not well-formed.
pub uninterp spec fn parsed(s: Seq<char>) -> Option<serde_json::Value>;

/// The sub-document under a top-level key.
pub uninterp spec fn doc_field(v: serde_json::Value, key: Seq<char>) -> serde_json::Value;

/// Relies on `serde_json::from_str::<Value>`: parses one line of text, `None`
/// when it is not well-formed; the result depends on the text alone.
#[verifier::external_body]
pub(crate) fn parse_document(text: &str) -> (r: Option<serde_json::Value>)
    ensures
        r == parsed(text@),
{
    serde_json::from_str::<serde_json::Value>(text).ok()
}

/// Relies on `Value::get` with a `&str` index: `Some` exactly when the value is
/// an object holding that key.
#[verifier::external_body]
pub(crate) fn has_field(v: &serde_json::Value, key: &str) -> (r: bool)
    ensures
        r == doc_keys(*v).contains(key@),
{
    v.get(key).is_some()
}

/// Relies on `Value::get` and `Value::as_i64`: the integer under `key`, if it
/// is one that fits in `i64`.
#[verifier::external_body]
pub(crate) fn int_field(v: &serde_json::Value, key: &str) -> (r: Option<i64>)
    ensures
        r == (if doc_ints(*v).contains_key(key@) {
            Some(doc_ints(*v)[key@] as i64)
        } else {
            None::<i64>
        }),
        r is Some ==> doc_keys(*v).contains(key@),
        r is Some ==> i64::MIN <= doc_ints(*v)[key@] <= i64::MAX,
{
    match v.get(key) {
        Some(x) => x.as_i64(),
        None => None,
    }
}

/// Relies on `Value::get` and `Value::as_str`: the string under `key`, if it is one.
#[verifier::external_body]
pub(crate) fn str_field(v: &serde_json::Value, key: &str) -> (r: Option<String>)
    ensures
        r matches Some(s) ==> doc_strs(*v).contains_key(key@) && s@ == doc_strs(*v)[key@],
        r is None ==> !doc_strs(*v).contains_key(key@),
        r is Some ==> doc_keys(*v).contains(key@),
{
    match v.get(key) {
        Some(x) => x.as_str().map(|s| s.to_string()),
        None => None,
    }
}

/// Relies on `Value::get` and `Value::is_null`: whether `key` holds null.
#[verifier::external_body]
pub(crate) fn null_field(v: &serde_json::Value, key: &str) -> (r: bool)
    ensures
        r == doc_nulls(*v).contains(key@),
        r ==> doc_keys(*v).contains(key@),
{
    match v.get(key) {
        Some(x) => x.is_null(),
        None => false,
    }
}

/// Relies on `Value::get`, then `Clone`: a copy of the sub-document under `key`.
#[verifier::external_body]
pub(crate) fn sub_document(v: &serde_json::Value, key: &str) -> (r: Option<serde_json::Value>)
    ensures
        r is Some == doc_keys(*v).contains(key@),
        r matches Some(d) ==> d == doc_field(*v, key@),
{
    v.get(key).cloned()
}

} // verus!
