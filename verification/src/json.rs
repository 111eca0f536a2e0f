//! JSON text, read and written by `serde_json`. The parsed tree stays
//! opaque; [`DynamicValue`] is what the rest of the library reads.

use crate::value::{DynamicValue, JsonValue};
use vstd::prelude::*;

verus! {

/// `serde_json::Value`, carried through as it is; nothing is read from it
/// but through the functions below.
#[verifier::external_type_specification]
#[verifier::external_body]
pub struct ExJsonTree(serde_json::Value);

/// `serde_json::Error`, carried through as it is.
#[verifier::external_type_specification]
#[verifier::external_body]
pub struct ExJsonError(serde_json::Error);

/// The value that a text denotes as JSON, where it denotes one.
pub uninterp spec fn json_of(text: Seq<char>) -> Option<JsonValue>;

/// The value that a parsed tree holds: its members in the order in which
/// the tree hands them out, each number by its decimal text.
pub uninterp spec fn tree_of(tree: serde_json::Value) -> JsonValue;

/// The compact JSON text of a value.
pub uninterp spec fn compact_json(v: JsonValue) -> Seq<char>;

/// The indented JSON text of a value.
pub uninterp spec fn pretty_json(v: JsonValue) -> Seq<char>;

/// `serde_json::from_str` at `serde_json::Value`. Whether the text parses,
/// and to which value, depends on the text alone.
#[verifier::external_body]
pub(crate) fn parse_tree(text: &str) -> (r: Result<serde_json::Value, serde_json::Error>)
    ensures
        r is Ok <==> json_of(text@) is Some,
        r matches Ok(tree) ==> json_of(text@) == Some(tree_of(tree)),
{
    serde_json::from_str::<serde_json::Value>(text)
}

/// Copies a parsed tree, variant by variant, into a [`DynamicValue`]: the
/// members through `Map::iter`, a number through its `Display`.
#[verifier::external_body]
pub(crate) fn lower(tree: &serde_json::Value) -> (r: DynamicValue)
    ensures
        r@ == tree_of(*tree),
{
    match tree {
        serde_json::Value::Null => DynamicValue::Null,
        serde_json::Value::Bool(b) => DynamicValue::Bool(*b),
        serde_json::Value::Number(n) => DynamicValue::Number(n.to_string()),
        serde_json::Value::String(s) => DynamicValue::String(s.clone()),
        serde_json::Value::Array(items) => DynamicValue::Array(items.iter().map(lower).collect()),
        serde_json::Value::Object(members) => DynamicValue::Object(
            members.iter().map(|(k, v)| (k.clone(), lower(v))).collect(),
        ),
    }
}

/// `serde_json::to_string` on a parsed tree. The text depends on the value
/// alone. The call succeeds: a tree is written without an error of its
/// own (its keys are strings, its numbers finite), and the text goes into
/// a buffer in memory, which takes every write.
#[verifier::external_body]
pub(crate) fn write_compact(tree: &serde_json::Value) -> (r: Result<String, serde_json::Error>)
    ensures
        r is Ok,
        r matches Ok(s) ==> s@ == compact_json(tree_of(*tree)),
{
    serde_json::to_string(tree)
}

/// `serde_json::to_string_pretty` on a parsed tree. The text depends on
/// the value alone, and the call succeeds, as that of `to_string` does.
#[verifier::external_body]
pub(crate) fn write_pretty(tree: &serde_json::Value) -> (r: Result<String, serde_json::Error>)
    ensures
        r is Ok,
        r matches Ok(s) ==> s@ == pretty_json(tree_of(*tree)),
{
    serde_json::to_string_pretty(tree)
}

/// Parses `text` as one JSON value.
pub fn parse_json(text: &str) -> (r: Option<DynamicValue>)
    ensures
        match r {
            Some(v) => json_of(text@) == Some(v@),
            None => json_of(text@) is None,
        },
{
    match parse_tree(text) {
        Ok(tree) => Some(lower(&tree)),
        Err(_) => None,
    }
}

} // verus!
