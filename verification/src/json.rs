//! JSON documents as `serde_json` reads them.
//!
//! A `serde_json::Value` is opaque to the verifier.  What it holds is
//! named by `json_tree`, and each accessor used by this crate is given a
//! contract over that tree.  None of these contracts is proved: they
//! restate what `serde_json` documents.

use vstd::prelude::*;

verus! {

#[verifier::external_type_specification]
#[verifier::external_body]
pub struct ExJsonValue(serde_json::Value);

#[verifier::external_type_specification]
#[verifier::external_body]
pub struct ExJsonError(serde_json::Error);

/// The shape of a JSON value.
pub enum JsonTree {
    Null,
    Bool(bool),
    /// A number, by the text that stands for it.
    Number(Seq<char>),
    Text(Seq<char>),
    Array(Seq<JsonTree>),
    Object(Map<Seq<char>, JsonTree>),
}

/// What a `serde_json::Value` holds.
pub uninterp spec fn json_tree(value: serde_json::Value) -> JsonTree;

/// What `serde_json::from_str` makes of a text: the document it reads, or
/// nothing where it reports an error.
pub uninterp spec fn json_document(text: Seq<char>) -> Option<JsonTree>;

/// What `serde_json::to_string_pretty` prints for a document, or nothing
/// where it reports an error.
pub uninterp spec fn json_pretty_text(tree: JsonTree) -> Option<Seq<char>>;

/// The member of an object under `key`; nothing for a missing key and for
/// a tree that is no object.
pub open spec fn tree_member(tree: JsonTree, key: Seq<char>) -> Option<JsonTree> {
    match tree {
        JsonTree::Object(members) => if members.contains_key(key) {
            Some(members[key])
        } else {
            None
        },
        _ => None,
    }
}

/// The trees of a run of values, in order.
pub open spec fn trees_of(values: Seq<serde_json::Value>) -> Seq<JsonTree> {
    Seq::new(values.len(), |i: int| json_tree(values[i]))
}

/// Calls `serde_json::from_str` for a `Value`.  The outcome is a function
/// of the text alone and is named by `json_document`.
#[verifier::external_body]
pub(crate) fn parse_document(text: &str) -> (res: Result<serde_json::Value, serde_json::Error>)
    ensures
        match res {
            Ok(value) => json_document(text@) == Some(json_tree(value)),
            Err(_) => json_document(text@) is None,
        },
{
    serde_json::from_str::<serde_json::Value>(text)
}

/// Calls `Value::get` with a string key: the member under that key when
/// the value is an object that has it, and nothing otherwise.
#[verifier::external_body]
pub(crate) fn member<'a>(value: &'a serde_json::Value, key: &str) -> (res: Option<
    &'a serde_json::Value,
>)
    ensures
        match res {
            Some(found) => tree_member(json_tree(*value), key@) == Some(json_tree(*found)),
            None => tree_member(json_tree(*value), key@) is None,
        },
{
    value.get(key)
}

/// `Value::as_array` hands out the elements of an array and nothing for
/// any other value.
pub assume_specification[ serde_json::Value::as_array ](value: &serde_json::Value) -> (res: Option<
    &Vec<serde_json::Value>,
>)
    ensures
        match res {
            Some(items) => json_tree(*value) == JsonTree::Array(trees_of(items@)),
            None => !(json_tree(*value) is Array),
        },
;

/// `Value::as_str` hands out the text of a string and nothing for any
/// other value.
pub assume_specification[ serde_json::Value::as_str ](value: &serde_json::Value) -> (res: Option<
    &str,
>)
    ensures
        match res {
            Some(text) => json_tree(*value) == JsonTree::Text(text@),
            None => !(json_tree(*value) is Text),
        },
;

/// `Value::as_bool` hands out a boolean and nothing for any other value.
pub assume_specification[ serde_json::Value::as_bool ](value: &serde_json::Value) -> (res: Option<
    bool,
>)
    ensures
        match res {
            Some(flag) => json_tree(*value) == JsonTree::Bool(flag),
            None => !(json_tree(*value) is Bool),
        },
;

/// Calls `serde_json::to_string_pretty` on a `Value`.  The outcome is a
/// function of the document, whose objects are printed in the order of
/// their keys, and is named by `json_pretty_text`.  This rests on
/// `serde_json` keeping objects sorted by key, which it does unless its
/// `preserve_order` feature is switched on; this crate leaves it off.
#[verifier::external_body]
pub(crate) fn pretty(value: &serde_json::Value) -> (res: Result<String, serde_json::Error>)
    ensures
        match res {
            Ok(text) => json_pretty_text(json_tree(*value)) == Some(text@),
            Err(_) => json_pretty_text(json_tree(*value)) is None,
        },
{
    serde_json::to_string_pretty(value)
}

/// The pretty-printed form of `content` where it is a JSON document, and
/// `content` itself where it is not or cannot be printed.
pub open spec fn pretty_or_same(content: Seq<char>) -> Seq<char> {
    match json_document(content) {
        Some(tree) => match json_pretty_text(tree) {
            Some(text) => text,
            None => content,
        },
        None => content,
    }
}

/// Pretty-prints `content` if it is JSON and returns it unchanged if not.
pub fn render_json(content: &str) -> (shown: String)
    ensures
        shown@ == pretty_or_same(content@),
{
    match parse_document(content) {
        Ok(value) => match pretty(&value) {
            Ok(text) => text,
            Err(_) => content.to_owned(),
        },
        Err(_) => content.to_owned(),
    }
}

} // verus!
