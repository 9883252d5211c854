//! The JSON value model, an opaque tree supplied by `serde_json`.
//!
//! The dispatcher never looks inside a JSON value: it parses text into one,
//! carries it through the channels, wraps error messages into one, and
//! pretty-prints one for the response pane. Each of those operations is a
//! deterministic function of its text or value arguments alone, so each is
//! named by an uninterpreted spec function and performed by a trusted wrapper.

use vstd::prelude::*;

verus! {

#[verifier::external_type_specification]
#[verifier::external_body]
pub struct ExJsonValue(serde_json::Value);

/// What `serde_json::from_str::<Value>` returns on a given text: the parsed
/// value, or the parser's error message.
pub uninterp spec fn json_parse_of(text: Seq<char>) -> Result<serde_json::Value, Seq<char>>;

/// What `serde_json::to_string_pretty` returns on a given value.
pub uninterp spec fn pretty_of(v: serde_json::Value) -> Seq<char>;

/// The JSON object with the single entry `key: text` (both strings), as
/// `serde_json`'s map and value constructors build it.
pub uninterp spec fn string_object_of(key: Seq<char>, text: Seq<char>) -> serde_json::Value;

/// Whether a text is accepted by the JSON parser.
pub open spec fn json_parses(text: Seq<char>) -> bool {
    json_parse_of(text) is Ok
}

/// Relies on `serde_json::from_str::<Value>`: the outcome is a function of
/// the input text alone; the error arm carries the parser's message.
#[verifier::external_body]
pub(crate) fn parse_json(text: &str) -> (r: Result<serde_json::Value, String>)
    ensures
        (match r {
            Ok(v) => json_parse_of(text@) matches Ok(w) && v == w,
            Err(s) => json_parse_of(text@) matches Err(m) && s@ == m,
        }),
{
    serde_json::from_str::<serde_json::Value>(text).map_err(|e| e.to_string())
}

/// Relies on `serde_json::to_string_pretty`: on a `Value` it is a function of
/// the value alone, and it cannot fail because a `Value`'s map keys are
/// always strings.
#[verifier::external_body]
fn pretty_string(v: &serde_json::Value) -> (r: String)
    ensures
        r@ == pretty_of(*v),
{
    serde_json::to_string_pretty(v).unwrap_or_default()
}

/// Relies on `serde_json::Map::insert` and the `Value` constructors: the
/// object built from one string entry is a function of key and text alone.
#[verifier::external_body]
pub(crate) fn string_object(key: &str, text: &str) -> (v: serde_json::Value)
    ensures
        v == string_object_of(key@, text@),
{
    let mut fields = serde_json::Map::new();
    fields.insert(key.to_string(), serde_json::Value::String(text.to_string()));
    serde_json::Value::Object(fields)
}

/// The error object shown in the response pane for a failed dispatch.
pub open spec fn error_object_of(message: Seq<char>) -> serde_json::Value {
    string_object_of("Request error"@, message)
}

/// Build the response-pane error object `{"Request error": message}`.
pub fn error_object(message: &str) -> (v: serde_json::Value)
    ensures
        v == error_object_of(message@),
{
    string_object("Request error", message)
}

/// Render a JSON value for the response pane.
pub fn render_json(v: &serde_json::Value) -> (r: String)
    ensures
        r@ == pretty_of(*v),
{
    pretty_string(v)
}

/// Pretty-printing is a function of the value alone: two renders of one and
/// the same value yield one and the same text.
pub proof fn lemma_pretty_print_deterministic(
    v: serde_json::Value,
    first: Seq<char>,
    second: Seq<char>,
)
    requires
        first == pretty_of(v),
        second == pretty_of(v),
    ensures
        first == second,
{
}

} // verus!
