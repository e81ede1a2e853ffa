//! The reading of JSON values through `serde_json`: parsing a text and
//! taking members, array items, numbers and strings. Each call is a trusted
//! wrapper whose result is named by a spec function of its arguments.
use vstd::prelude::*;
use crate::api::opt_text_view;

verus! {

/// What `serde_json::from_str::<serde_json::Value>` gives for a text: the
/// parsed value, or nothing when the text is not JSON.
pub uninterp spec fn json_parse(text: Seq<char>) -> Option<serde_json::Value>;

/// Calls `serde_json::from_str::<serde_json::Value>`, keeping the value and
/// dropping the error; the result is named by `json_parse`.
#[verifier::external_body]
pub(crate) fn parse_json_value(text: &str) -> (parsed: Option<serde_json::Value>)
    ensures
        parsed == json_parse(text@),
{
    serde_json::from_str::<serde_json::Value>(text).ok()
}

/// Builds an empty JSON object (`serde_json::Map::new` in `Value::Object`),
/// which is what `serde_json` parses the text `{}` to.
#[verifier::external_body]
pub(crate) fn empty_json_object() -> (v: serde_json::Value)
    ensures
        json_parse("{}"@) == Some(v),
{
    serde_json::Value::Object(serde_json::Map::new())
}

/// What `serde_json::Value::get` with a key gives: the member of an object,
/// nothing for another key or a value that is not an object.
pub uninterp spec fn json_member(v: serde_json::Value, key: Seq<char>) -> Option<
    serde_json::Value,
>;

/// Calls `serde_json::Value::get` with a key, copying the member found; the
/// result is named by `json_member`.
#[verifier::external_body]
pub(crate) fn member(v: &serde_json::Value, key: &str) -> (m: Option<serde_json::Value>)
    ensures
        m == json_member(*v, key@),
{
    v.get(key).cloned()
}

/// What `serde_json::Value::as_array` gives: the items of an array, nothing
/// for a value that is not an array.
pub uninterp spec fn json_items(v: serde_json::Value) -> Option<Seq<serde_json::Value>>;

/// Calls `serde_json::Value::as_array`, copying the items; the result is
/// named by `json_items`.
#[verifier::external_body]
pub(crate) fn array_items(v: &serde_json::Value) -> (items: Option<Vec<serde_json::Value>>)
    ensures
        match items {
            Some(x) => json_items(*v) == Some(x@),
            None => json_items(*v) is None,
        },
{
    v.as_array().cloned()
}

/// What `serde_json::Value::as_u64` gives: an unsigned integer that fits in a
/// `u64`, nothing for any other value.
pub uninterp spec fn json_u64(v: serde_json::Value) -> Option<u64>;

/// Calls `serde_json::Value::as_u64`; the result is named by `json_u64`.
#[verifier::external_body]
pub(crate) fn u64_value(v: &serde_json::Value) -> (n: Option<u64>)
    ensures
        n == json_u64(*v),
{
    v.as_u64()
}

/// What `serde_json::Value::as_str` gives: the text of a string, nothing for
/// any other value.
pub uninterp spec fn json_str(v: serde_json::Value) -> Option<Seq<char>>;

/// Calls `serde_json::Value::as_str`, copying the text; the result is named
/// by `json_str`.
#[verifier::external_body]
pub(crate) fn str_value(v: &serde_json::Value) -> (s: Option<String>)
    ensures
        opt_text_view(s) == json_str(*v),
{
    v.as_str().map(str::to_string)
}

/// What `serde_json::Value`'s `to_string` gives: the value as compact JSON text.
pub uninterp spec fn json_rendered(v: serde_json::Value) -> Seq<char>;

/// Calls `to_string` on a JSON value; the result is named by `json_rendered`.
#[verifier::external_body]
pub(crate) fn render(v: &serde_json::Value) -> (s: String)
    ensures
        s@ == json_rendered(*v),
{
    v.to_string()
}

} // verus!
