//! The boundary to `serde_json`, and the integrity check that is built on
//! it. The library reads a parsed document through a tree of its own; what
//! only `serde_json` can do (parse, serialize) is called, behind wrappers
//! whose contracts are not proved.

use vstd::prelude::*;
use serde_json::Value;
use crate::error::{Failure, StageError};

verus! {

/// `serde_json::Value`, a parsed JSON value. The verifier sees nothing
/// inside it; what the library knows of one it knows through `json_tree`.
#[verifier::external_type_specification]
#[verifier::external_body]
pub struct ExValue(serde_json::Value);

/// `serde_json::Error`, the error of a text that does not parse. It is
/// carried to where it is turned into a failure of the library.
#[verifier::external_type_specification]
#[verifier::external_body]
pub struct ExJsonError(serde_json::Error);

/// A JSON value as a tree of plain values: what a `serde_json::Value` holds,
/// variant for variant.
#[derive(Debug, PartialEq, Eq)]
pub enum Json {
    Null,
    Bool(bool),
    /// A number, as the decimal text that `serde_json` prints for it.
    Number(String),
    Text(String),
    Array(Vec<Json>),
    /// The members of an object, in the order in which `serde_json` walks
    /// them.
    Object(Vec<(String, Json)>),
}

/// The tree that a `serde_json::Value` holds.
pub uninterp spec fn json_tree(value: Value) -> Json;

/// What `serde_json::from_str` makes of `text` when it is asked for a
/// `Value`: the tree of the value where `text` is one well-formed JSON
/// document, `None` where it is not.
pub uninterp spec fn json_document(text: Seq<char>) -> Option<Json>;

/// The compact JSON text that `serde_json` prints for a value that holds
/// `tree`.
pub uninterp spec fn json_serialized(tree: Json) -> Seq<char>;

/// The text that `Display` prints for a `serde_json::Error`.
pub uninterp spec fn json_error_text(error: serde_json::Error) -> Seq<char>;

/// The report on a text that `serde_json::from_str` does not accept as a
/// `Value`: the text of the error that it returns for `text`, which says
/// what is wrong and at which line and column.
pub uninterp spec fn parse_report(text: Seq<char>) -> Seq<char>;

/// `serde_json::from_str::<Value>`. Claims that whether it succeeds, the
/// value it returns and the error it returns depend on the text alone.
#[verifier::external_body]
pub(crate) fn json_from_str(text: &str) -> (res: Result<Value, serde_json::Error>)
    ensures
        match res {
            Ok(value) => json_document(text@) == Some(json_tree(value)),
            Err(error) => json_document(text@) is None && json_error_text(error) == parse_report(
                text@,
            ),
        },
{
    serde_json::from_str::<Value>(text)
}

/// `Display` for `serde_json::Error`, through `to_string`.
#[verifier::external_body]
pub(crate) fn json_error_message(error: &serde_json::Error) -> (message: String)
    ensures
        message@ == json_error_text(*error),
{
    error.to_string()
}

/// `Display` for `serde_json::Value`, which prints the value as compact
/// JSON. Claims that the text depends on what the value holds alone.
#[verifier::external_body]
pub(crate) fn json_to_string(value: &Value) -> (out: String)
    ensures
        out@ == json_serialized(json_tree(*value)),
{
    value.to_string()
}

/// Copies what a `serde_json::Value` holds into a tree of the library, one
/// variant for one variant. A number is kept as the text that `Display` for
/// `serde_json::Number` prints.
#[verifier::external_body]
pub(crate) fn json_tree_of(value: &Value) -> (tree: Json)
    ensures
        tree == json_tree(*value),
{
    match value {
        Value::Null => Json::Null,
        Value::Bool(flag) => Json::Bool(*flag),
        Value::Number(number) => Json::Number(number.to_string()),
        Value::String(text) => Json::Text(text.clone()),
        Value::Array(items) => Json::Array(items.iter().map(json_tree_of).collect()),
        Value::Object(members) => Json::Object(
            members.iter().map(|(key, member)| (key.clone(), json_tree_of(member))).collect(),
        ),
    }
}

/// The canonical form of a JSON text: what comes out when the text is
/// parsed and the parsed value is serialized again. `None` where the text
/// is not well-formed JSON.
pub open spec fn canonical(text: Seq<char>) -> Option<Seq<char>> {
    match json_document(text) {
        Some(tree) => Some(json_serialized(tree)),
        None => None,
    }
}

/// Checks that `text` is well-formed JSON and returns its canonical form,
/// which is what the stage emits. A text that does not parse is rejected
/// as a whole: nothing of it is handed on.
pub fn validate(text: &str) -> (res: Result<String, StageError>)
    ensures
        match res {
            Ok(out) => canonical(text@) == Some(out@),
            Err(e) => canonical(text@) is None && e@ == Failure::MalformedResultPayload,
        },
{
    match json_from_str(text) {
        Ok(value) => Ok(json_to_string(&value)),
        Err(_) => Err(StageError::MalformedResultPayload),
    }
}

} // verus!
