//! JSON documents, read and written by `serde_json`.
//!
//! A document is a `serde_json::Value`: a tagged union of object, array,
//! string, number, boolean and null, with no schema. Verus sees nothing inside
//! one. What the parser accepts and what the printer writes are named here and
//! left to `serde_json`: every item of this module is taken on trust.

use vstd::prelude::*;

verus! {

/// `serde_json::Value`, carried through the relay unopened.
#[verifier::external_type_specification]
#[verifier::external_body]
pub struct ExValue(serde_json::Value);

/// `serde_json::Error`, which says why bytes were refused or a document could
/// not be written.
#[verifier::external_type_specification]
#[verifier::external_body]
pub struct ExError(serde_json::Error);

/// The document that `serde_json::from_slice` reads from `bytes`, or `None`
/// where it refuses them. Nothing more is assumed of it than that it depends
/// on the bytes alone.
pub uninterp spec fn document(bytes: Seq<u8>) -> Option<serde_json::Value>;

/// The text that `serde_json::to_string_pretty` writes for `value`, or `None`
/// where it fails. Nothing more is assumed of it than that it depends on the
/// document alone.
pub uninterp spec fn pretty_text(value: serde_json::Value) -> Option<Seq<char>>;

/// Calls `serde_json::from_slice` for a `Value`. The parser reads the whole
/// slice as one JSON text and returns an error, never a panic, on anything
/// else; the contract claims only that equal bytes give the same outcome.
#[verifier::external_body]
pub(crate) fn from_slice(bytes: &[u8]) -> (parsed: Result<serde_json::Value, serde_json::Error>)
    ensures
        parsed.is_ok() == document(bytes@).is_some(),
        parsed matches Ok(value) ==> document(bytes@) == Some(value),
{
    serde_json::from_slice::<serde_json::Value>(bytes)
}

/// Calls `serde_json::to_string_pretty` on a `Value`; the contract claims only
/// that equal documents give the same outcome.
#[verifier::external_body]
pub(crate) fn to_string_pretty(value: &serde_json::Value) -> (written: Result<String, serde_json::Error>)
    ensures
        written.is_ok() == pretty_text(*value).is_some(),
        written matches Ok(text) ==> pretty_text(*value) == Some(text@),
{
    serde_json::to_string_pretty(value)
}

} // verus!
