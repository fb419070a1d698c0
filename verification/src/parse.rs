//! Reading the platform's answer: JSON text in, a `Json` tree out. The reading
//! itself is `serde_json`'s.
use crate::json::{Json, JsonValue};
use crate::value::{json_from_value, value_tree};
use vstd::prelude::*;

verus! {

/// `serde_json::Error`, carried to the caller as it came.
#[verifier::external_type_specification]
#[verifier::external_body]
pub struct ExJsonError(serde_json::Error);

/// What `serde_json::from_str` makes of a text: the tree of the value it
/// reads, or nothing where it reports an error.
pub uninterp spec fn parsed_tree(text: Seq<char>) -> Option<JsonValue>;

/// `serde_json::from_str`, read as a `serde_json::Value`. The outcome depends on
/// the text alone: a value with the tree that `parsed_tree` names, or an error
/// where it names none.
#[verifier::external_body]
fn parse_value(text: &str) -> (result: Result<serde_json::Value, serde_json::Error>)
    ensures
        match result {
            Ok(value) => parsed_tree(text@) == Some(value_tree(value)),
            Err(_) => parsed_tree(text@) is None,
        },
{
    serde_json::from_str::<serde_json::Value>(text)
}

/// The answer was no JSON text.
#[derive(Debug)]
pub struct ResponseParseError {
    /// What the parser reported.
    pub cause: serde_json::Error,
}

/// Reads the platform's answer: the value that the text writes, or an error
/// where the text is no JSON.
pub fn parse_response(text: &str) -> (result: Result<Json, ResponseParseError>)
    ensures
        match parsed_tree(text@) {
            Some(tree) => result matches Ok(json) && json@ == tree,
            None => result is Err,
        },
{
    match parse_value(text) {
        Ok(value) => Ok(json_from_value(value)),
        Err(cause) => Err(ResponseParseError { cause }),
    }
}

} // verus!
