//! JSON documents, parsed by `serde_json`.
//!
//! A parsed document is looked into by JSON pointer: `"/params/addr"` is the member
//! `addr` of the member `params`.

use vstd::prelude::*;

verus! {

/// `serde_json::Value`, a parsed JSON document.
#[verifier::external_type_specification]
#[verifier::external_body]
pub struct ExValue(serde_json::Value);

/// The unsigned integers in a document, by JSON pointer.
pub uninterp spec fn json_numbers(value: serde_json::Value) -> Map<Seq<char>, u64>;

/// The strings in a document, by JSON pointer.
pub uninterp spec fn json_texts(value: serde_json::Value) -> Map<Seq<char>, Seq<char>>;

/// The booleans in a document, by JSON pointer.
pub uninterp spec fn json_flags(value: serde_json::Value) -> Map<Seq<char>, bool>;

/// What a line of JSON holds - its unsigned integers, its strings and its booleans, each
/// by JSON pointer - or why it is not JSON.
pub uninterp spec fn json_parsed(line: Seq<char>) -> Result<
    (Map<Seq<char>, u64>, Map<Seq<char>, Seq<char>>, Map<Seq<char>, bool>),
    Seq<char>,
>;

/// The entry of a map, if it has one.
pub open spec fn entry<V>(map: Map<Seq<char>, V>, pointer: Seq<char>) -> Option<V> {
    if map.contains_key(pointer) {
        Some(map[pointer])
    } else {
        None
    }
}

/// `serde_json::from_str`, with the error's message in place of the error. The document
/// that comes back, or the message, is a function of the line; which lines are JSON, and
/// how a message reads, is left to `serde_json`.
#[verifier::external_body]
pub(crate) fn parse(line: &str) -> (result: Result<serde_json::Value, String>)
    ensures
        match result {
            Ok(value) => json_parsed(line@) == Ok::<
                (Map<Seq<char>, u64>, Map<Seq<char>, Seq<char>>, Map<Seq<char>, bool>),
                Seq<char>,
            >((json_numbers(value), json_texts(value), json_flags(value))),
            Err(message) => json_parsed(line@) == Err::<
                (Map<Seq<char>, u64>, Map<Seq<char>, Seq<char>>, Map<Seq<char>, bool>),
                Seq<char>,
            >(message@),
        },
{
    serde_json::from_str(line).map_err(|error| error.to_string())
}

/// `serde_json::Value::pointer`, then `serde_json::Value::as_u64` on what it found: the
/// unsigned integer at a pointer, if there is one.
#[verifier::external_body]
pub(crate) fn number_at(value: &serde_json::Value, pointer: &str) -> (number: Option<u64>)
    ensures
        number == entry(json_numbers(*value), pointer@),
{
    value.pointer(pointer).and_then(serde_json::Value::as_u64)
}

/// `serde_json::Value::pointer`, then `serde_json::Value::as_str` on what it found: the
/// string at a pointer, if there is one.
#[verifier::external_body]
pub(crate) fn text_at(value: &serde_json::Value, pointer: &str) -> (text: Option<String>)
    ensures
        match text {
            Some(text) => entry(json_texts(*value), pointer@) == Some(text@),
            None => entry(json_texts(*value), pointer@) is None,
        },
{
    value.pointer(pointer).and_then(serde_json::Value::as_str).map(String::from)
}

/// `serde_json::Value::pointer`, then `serde_json::Value::as_bool` on what it found: the
/// boolean at a pointer, if there is one.
#[verifier::external_body]
pub(crate) fn flag_at(value: &serde_json::Value, pointer: &str) -> (flag: Option<bool>)
    ensures
        flag == entry(json_flags(*value), pointer@),
{
    value.pointer(pointer).and_then(serde_json::Value::as_bool)
}

} // verus!
