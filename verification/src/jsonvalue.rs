//! Trusted surface over `serde_json`'s dynamically typed JSON value.
//!
//! The protocol engine never looks inside a `serde_json::Value`: parameters,
//! ids, result payloads and error data travel through it opaquely.  The few
//! operations the engine needs are declared here with the contracts that
//! `serde_json`'s documentation gives them.  Each operation is a function of
//! its arguments alone, so its outcome gets a name; the parser's and the
//! serializer's contracts are stated over those names.

use crate::text::escaped_text;
use vstd::prelude::*;

verus! {

#[verifier::external_type_specification]
#[verifier::external_body]
pub struct ExValue(serde_json::Value);

/// Whether a value is JSON null, as `serde_json::Value::is_null` decides it.
pub uninterp spec fn spec_value_is_null(v: serde_json::Value) -> bool;

/// Relies on `serde_json::Value::is_null`: true exactly when the value is JSON null.
pub assume_specification[ serde_json::Value::is_null ](v: &serde_json::Value) -> (r: bool)
    ensures
        r == spec_value_is_null(*v),
;

/// The text of a JSON string value, as `serde_json::Value::as_str` reads it;
/// `None` for every other kind of value.
pub uninterp spec fn spec_value_str(v: serde_json::Value) -> Option<Seq<char>>;

/// Relies on `serde_json::Value::as_str`: the string slice of a JSON string, `None` otherwise.
pub assume_specification[ serde_json::Value::as_str ](v: &serde_json::Value) -> (r: Option<&str>)
    ensures
        r matches Some(s) ==> spec_value_str(*v) == Some(s@),
        r is None ==> spec_value_str(*v) is None,
;

/// The elements of a JSON array value, as `serde_json::Value::as_array` hands
/// them out; `None` for every other kind of value.
pub uninterp spec fn spec_value_elems(v: serde_json::Value) -> Option<Seq<serde_json::Value>>;

/// Relies on `serde_json::Value::as_array`: the elements of a JSON array, `None` otherwise.
pub assume_specification[ serde_json::Value::as_array ](v: &serde_json::Value) -> (r: Option<
    &Vec<serde_json::Value>,
>)
    ensures
        r matches Some(a) ==> spec_value_elems(*v) == Some(a@),
        r is None ==> spec_value_elems(*v) is None,
;

/// What `serde_json::from_str::<Value>` parses a text to, if anything.  The
/// outcome depends on the characters alone.
pub uninterp spec fn spec_json_of(s: Seq<char>) -> Option<serde_json::Value>;

/// Relies on `serde_json::from_str::<Value>`: `Some` exactly when the text is a
/// well-formed JSON document, in which case the value denotes that document.
#[verifier::external_body]
pub(crate) fn parse_json_text(s: &str) -> (r: Option<serde_json::Value>)
    ensures
        r == spec_json_of(s@),
{
    serde_json::from_str(s).ok()
}

/// The field of a JSON object under a key, as `serde_json::Value::get` looks
/// it up; `None` for absent keys and for non-objects.
pub uninterp spec fn spec_object_field(v: serde_json::Value, key: Seq<char>) -> Option<
    serde_json::Value,
>;

/// Relies on `serde_json::Value::get` with a string index, and on `Clone` for
/// `Value` handing back the same JSON value: the field of a JSON object under
/// that key, `None` for absent keys and for non-objects.
#[verifier::external_body]
pub(crate) fn object_field(v: &serde_json::Value, key: &str) -> (r: Option<serde_json::Value>)
    ensures
        r == spec_object_field(*v, key@),
{
    v.get(key).cloned()
}

/// The JSON text that `serde_json::to_string` renders a value as.  The
/// rendering is a function of the value alone.
pub uninterp spec fn value_text(v: serde_json::Value) -> Seq<char>;

/// Relies on `serde_json::to_string` on a `Value`: the returned text is the
/// value's JSON rendering.  Its two documented failure causes — a `Serialize`
/// implementation that errors, a map with non-string keys — cannot arise for a
/// `Value`, so the rendering always succeeds.
#[verifier::external_body]
pub(crate) fn value_to_text(v: &serde_json::Value) -> (r: Option<String>)
    ensures
        r is Some,
        r matches Some(s) ==> s@ == value_text(*v),
{
    serde_json::to_string(v).ok()
}

/// Relies on `serde_json::Value::String`, and on `to_string`'s rendering of a
/// string value: a quote, the text with exactly the escapes of `escaped_char`,
/// a quote.
#[verifier::external_body]
pub(crate) fn string_value(s: String) -> (r: serde_json::Value)
    ensures
        value_text(r) == "\""@ + escaped_text(s@) + "\""@,
{
    serde_json::Value::String(s)
}

} // verus!
