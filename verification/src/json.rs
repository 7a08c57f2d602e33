//! The JSON codec behind request and response bodies.

use vstd::prelude::*;

verus! {

/// `serde_json::Value`, a JSON document of any shape. This crate hands such
/// values on and never looks inside one.
#[verifier::external_type_specification]
#[verifier::external_body]
pub struct ExJsonValue(serde_json::Value);

/// What `serde_json` makes of `text` when asked for a dynamic value: the
/// document it holds, or the text of the codec's failure.
pub uninterp spec fn json_document(text: Seq<char>) -> Result<serde_json::Value, Seq<char>>;

/// Calls `serde_json::from_str` for a `serde_json::Value` and, where it
/// fails, takes the failure's text. The contract claims only that the outcome
/// is a function of the text: parsing reads nothing but its argument.
#[verifier::external_body]
pub(crate) fn parse_document(text: String) -> (parsed: Result<serde_json::Value, String>)
    ensures
        match parsed {
            Ok(value) => json_document(text@) == Ok::<serde_json::Value, Seq<char>>(value),
            Err(failure) => json_document(text@) == Err::<serde_json::Value, Seq<char>>(failure@),
        },
{
    match serde_json::from_str::<serde_json::Value>(&text) {
        Ok(value) => Ok(value),
        Err(failure) => Err(failure.to_string()),
    }
}

} // verus!
