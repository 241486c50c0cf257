//! The boundary to `serde_json`: the value type that the cache stores, and
//! the calls that print, parse and inspect it.
//!
//! A JSON value is opaque to the verifier. The contracts below speak of it
//! through three uninterpreted functions, each of which names the result of
//! one `serde_json` call. Nothing here is proved; everything else in the
//! crate is proved from what this file states.

use vstd::prelude::*;

verus! {

/// `serde_json::Value`, carried through the cache without looking inside.
#[verifier::external_type_specification]
#[verifier::external_body]
pub struct ExValue(serde_json::Value);

/// The JSON text that `serde_json::to_string` gives for a value, or `None`
/// where it reports an error.
pub uninterp spec fn json_text(value: serde_json::Value) -> Option<Seq<char>>;

/// The value that `serde_json::from_str` reads from a text, or `None` where
/// the text is not one JSON value.
pub uninterp spec fn json_parse(text: Seq<char>) -> Option<serde_json::Value>;

/// The characters of a JSON string value, as `serde_json::Value::as_str`
/// gives them, or `None` for a value of any other kind.
pub uninterp spec fn json_string(value: serde_json::Value) -> Option<Seq<char>>;

/// Calls `serde_json::to_string`. The contract only names the outcome:
/// printing is a function of the value alone.
#[verifier::external_body]
pub(crate) fn to_text(value: &serde_json::Value) -> (r: Option<String>)
    ensures
        match r {
            Some(text) => json_text(*value) == Some(text@),
            None => json_text(*value) is None,
        },
{
    serde_json::to_string(value).ok()
}

/// Calls `serde_json::from_str` for a `serde_json::Value`. The contract only
/// names the outcome: parsing is a function of the text alone.
#[verifier::external_body]
pub(crate) fn parse_text(text: &str) -> (r: Option<serde_json::Value>)
    ensures
        r == json_parse(text@),
{
    serde_json::from_str::<serde_json::Value>(text).ok()
}

/// Builds `serde_json::Value::String`. Claims that `as_str` on the result
/// gives the same characters back, which is what the variant holds.
#[verifier::external_body]
pub(crate) fn string_value(text: String) -> (r: serde_json::Value)
    ensures
        json_string(r) == Some(text@),
{
    serde_json::Value::String(text)
}

/// `serde_json::Value::as_str`: the string inside a string value, `None`
/// for every other kind of value.
pub assume_specification<'a>[ serde_json::Value::as_str ](value: &'a serde_json::Value) -> (r:
    Option<&'a str>)
    ensures
        match r {
            Some(text) => json_string(*value) == Some(text@),
            None => json_string(*value) is None,
        },
;

/// `Clone` for `serde_json::Value`, which is derived: the copy is the same
/// value.
pub assume_specification[ <serde_json::Value as Clone>::clone ](value: &serde_json::Value) -> (r:
    serde_json::Value)
    ensures
        r == *value,
;

} // verus!
