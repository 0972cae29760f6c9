//! Field access on exchange responses. The exchange answers with JSON
//! documents; the parsed document is opaque here, so the two maps below
//! name what the logic reads from it: its string-valued and its
//! unsigned-integer-valued top-level fields.

use vstd::prelude::*;

verus! {

#[verifier::external_type_specification]
#[verifier::external_body]
pub struct ExValue(serde_json::Value);

/// The string-valued top-level fields of a parsed document: the key is
/// the field name, the value the field's string content.
pub uninterp spec fn json_str_fields(v: serde_json::Value) -> Map<Seq<char>, Seq<char>>;

/// The top-level fields of a parsed document whose value is an integer
/// that fits in a `u64`.
pub uninterp spec fn json_u64_fields(v: serde_json::Value) -> Map<Seq<char>, u64>;

/// Whether a text is one valid JSON document: a function of the text
/// alone.
pub uninterp spec fn spec_json_parses(s: Seq<char>) -> bool;

/// The string-valued top-level fields of the document a text parses
/// to: parsing is deterministic, so this is a function of the text
/// alone.
pub uninterp spec fn json_str_fields_of(s: Seq<char>) -> Map<Seq<char>, Seq<char>>;

/// The u64-valued top-level fields of the document a text parses to.
pub uninterp spec fn json_u64_fields_of(s: Seq<char>) -> Map<Seq<char>, u64>;

/// Relies on serde_json::from_str: parses text as one JSON document,
/// `None` exactly where the text is not valid JSON, and deterministic
/// in the text — the parsed document's fields are those of the text.
#[verifier::external_body]
pub fn parse_json(s: &str) -> (r: Option<serde_json::Value>)
    ensures
        r is Some <==> spec_json_parses(s@),
        r matches Some(v) ==> json_str_fields(v) == json_str_fields_of(s@) && json_u64_fields(v)
            == json_u64_fields_of(s@),
{
    serde_json::from_str(s).ok()
}

/// Relies on serde_json's `Value::get` and `Value::as_str`: looks up a
/// top-level field and reads it when it is a string.
#[verifier::external_body]
pub fn get_str_field(v: &serde_json::Value, key: &str) -> (r: Option<String>)
    ensures
        match r {
            Some(s) => json_str_fields(*v).contains_key(key@) && s@ == json_str_fields(*v)[key@],
            None => !json_str_fields(*v).contains_key(key@),
        },
{
    match v.get(key) {
        Some(f) => f.as_str().map(|s| s.to_string()),
        None => None,
    }
}

/// Relies on serde_json's `Value::get` and `Value::as_u64`: looks up a
/// top-level field and reads it when it is an integer that fits in a
/// `u64`.
#[verifier::external_body]
pub fn get_u64_field(v: &serde_json::Value, key: &str) -> (r: Option<u64>)
    ensures
        match r {
            Some(n) => json_u64_fields(*v).contains_key(key@) && n == json_u64_fields(*v)[key@],
            None => !json_u64_fields(*v).contains_key(key@),
        },
{
    match v.get(key) {
        Some(f) => f.as_u64(),
        None => None,
    }
}

} // verus!
