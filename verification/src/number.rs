//! JSON numbers, held as `serde_json` read them.
use vstd::prelude::*;

verus! {

/// `serde_json::Number`, carried inside a `Json` from the parser to whatever
/// writes it. Nothing in it is open to the proofs; `number_text` names the text
/// that writes it.
#[verifier::external_type_specification]
#[verifier::external_body]
pub struct ExNumber(serde_json::Number);

/// The text that `serde_json` displays for a number.
pub uninterp spec fn number_text(number: serde_json::Number) -> Seq<char>;

/// The `Display` of `serde_json::Number`, through `to_string`: the result is
/// the text that `number_text` names.
#[verifier::external_body]
pub(crate) fn number_display(number: &serde_json::Number) -> (text: String)
    ensures
        text@ == number_text(*number),
{
    number.to_string()
}

/// The `Clone` that `serde_json::Number` derives: the copy is the same number.
#[verifier::external_body]
pub(crate) fn number_copy(number: &serde_json::Number) -> (copy: serde_json::Number)
    ensures
        copy == *number,
{
    number.clone()
}

} // verus!
