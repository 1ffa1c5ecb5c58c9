//! The JSON that the agent server speaks, read and written through
//! serde_json.
use vstd::prelude::*;

verus! {

/// The view of an optional string.
pub open spec fn opt_text(o: Option<String>) -> Option<Seq<char>> {
    match o {
        Some(s) => Some(s@),
        None => None,
    }
}

/// Names the compact text of the JSON value that `doc` holds, or `None` when
/// `doc` is not JSON.
pub uninterp spec fn json_compact_of(doc: Seq<char>) -> Option<Seq<char>>;

/// Names the string found in the JSON document `doc` at the JSON pointer
/// `pointer`, or `None` when `doc` is not JSON or holds no string there.
pub uninterp spec fn json_text_at_of(doc: Seq<char>, pointer: Seq<char>) -> Option<Seq<char>>;

/// Names whether the JSON document `doc` holds an array at the JSON pointer
/// `pointer`; false when `doc` is not JSON.
pub uninterp spec fn json_array_at_of(doc: Seq<char>, pointer: Seq<char>) -> bool;

/// Names the JSON string literal (quoted and escaped) that holds `s`.
pub uninterp spec fn json_quoted_of(s: Seq<char>) -> Seq<char>;

/// Relies on `serde_json::from_str::<Value>`, which fails on text that is not
/// JSON, and on `Value`'s `Display`, which writes the compact form.
#[verifier::external_body]
pub(crate) fn json_compact(doc: &str) -> (r: Option<String>)
    ensures
        opt_text(r) == json_compact_of(doc@),
{
    serde_json::from_str::<serde_json::Value>(doc).ok().as_ref().map(ToString::to_string)
}

/// Relies on `serde_json::from_str::<Value>`, `Value::pointer` and
/// `Value::as_str`: the string at `pointer` in the parsed document.
#[verifier::external_body]
pub(crate) fn json_text_at(doc: &str, pointer: &str) -> (r: Option<String>)
    ensures
        opt_text(r) == json_text_at_of(doc@, pointer@),
{
    let v = serde_json::from_str::<serde_json::Value>(doc).ok()?;
    v.pointer(pointer).and_then(serde_json::Value::as_str).map(str::to_owned)
}

/// Relies on `serde_json::from_str::<Value>`, `Value::pointer` and
/// `Value::is_array`: whether the parsed document holds an array there.
#[verifier::external_body]
pub(crate) fn json_array_at(doc: &str, pointer: &str) -> (r: bool)
    ensures
        r == json_array_at_of(doc@, pointer@),
{
    match serde_json::from_str::<serde_json::Value>(doc) {
        Ok(v) => v.pointer(pointer).map_or(false, serde_json::Value::is_array),
        Err(_) => false,
    }
}

/// Relies on `serde_json::to_string` on a `str`: the JSON string literal that
/// holds it. Serialising a `str` does not fail.
#[verifier::external_body]
pub(crate) fn json_quoted(s: &str) -> (r: String)
    ensures
        r@ == json_quoted_of(s@),
{
    match serde_json::to_string(s) {
        Ok(q) => q,
        Err(_) => String::new(),
    }
}

} // verus!
