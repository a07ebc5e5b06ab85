//! The parts of `serde_json` that the library relies on.

use vstd::prelude::*;

verus! {

/// A JSON document held as `serde_json` builds it. The library never looks
/// inside one: it only carries it along.
#[verifier::external_type_specification]
#[verifier::external_body]
pub struct ExJsonValue(serde_json::Value);

/// Relies on the derived `Clone` of `serde_json::Value`: the copy is the
/// same JSON document.
pub assume_specification[ <serde_json::Value as Clone>::clone ](v: &serde_json::Value) -> (r:
    serde_json::Value)
    ensures
        r == *v,
;

/// Whether `serde_json` accepts the text as one JSON document.
pub uninterp spec fn is_json_document(s: Seq<char>) -> bool;

/// The text that `serde_json` writes for a JSON string holding these
/// characters: the characters quoted and escaped.
pub uninterp spec fn json_string_literal(s: Seq<char>) -> Seq<char>;

/// Relies on `serde_json::from_str::<serde_json::Value>`: it succeeds exactly
/// when the text is one JSON document, whatever the text's origin.
#[verifier::external_body]
pub(crate) fn parse_json(s: &str) -> (r: Option<serde_json::Value>)
    ensures
        r.is_some() == is_json_document(s@),
{
    serde_json::from_str::<serde_json::Value>(s).ok()
}

/// Relies on the compact `Display` of `serde_json::Value::String`: the quoted,
/// escaped JSON literal for the text.
#[verifier::external_body]
pub(crate) fn json_quote(s: &str) -> (r: String)
    ensures
        r@ == json_string_literal(s@),
{
    serde_json::Value::String(s.to_string()).to_string()
}

} // verus!
