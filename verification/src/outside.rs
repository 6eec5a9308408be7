//! What the library takes from outside itself: the calls into `serde_json`
//! that turn text into structured values and back, and two functions of `std`.
//! Nothing in this file is proved: each contract states what the called
//! function is taken to do.

use crate::json::{Json, JsonValue};
use vstd::prelude::*;
use vstd::utf8::{decode_utf8, valid_utf8};

verus! {

/// `serde_json::Value`, declared so that the conversions below can take and give it.
#[verifier::external_type_specification]
#[verifier::external_body]
pub struct ExValue(serde_json::Value);

/// The value that `serde_json::from_str::<serde_json::Value>` reads in `text`,
/// or `None` where it reports an error. Nothing is said of what it is for a
/// given text, only that it depends on the text alone.
pub uninterp spec fn json_decode(text: Seq<char>) -> Option<JsonValue>;

/// The text that `serde_json::to_string` writes for `value`, or `None` where
/// the value holds a number that `serde_json` does not read as one, or where
/// `to_string` reports an error. Nothing is said of what it is for a given
/// value, only that it depends on the value alone.
pub uninterp spec fn json_encode(value: JsonValue) -> Option<Seq<char>>;

/// The text that `String::from_utf8_lossy` reads in `bytes`. Of bytes that are
/// valid UTF-8 it is said to be the text they encode; of other bytes, only that
/// it depends on the bytes alone.
pub uninterp spec fn utf8_lossy(bytes: Seq<u8>) -> Seq<char>;

/// `String::push`: the character is added at the end.
pub assume_specification[ String::push ](s: &mut String, c: char)
    ensures
        final(s)@ == old(s)@.push(c),
;

/// Moves a `serde_json::Value` into a [`Json`], variant by variant: a number
/// goes over as the text that `serde_json::Number` displays, the members of an
/// object in the order in which `serde_json::Map` hands them out. Used by
/// `decode_text` alone.
#[verifier::external_body]
fn lift(value: serde_json::Value) -> Json {
    match value {
        serde_json::Value::Null => Json::Null,
        serde_json::Value::Bool(b) => Json::Bool(b),
        serde_json::Value::Number(n) => Json::Number(n.to_string()),
        serde_json::Value::String(s) => Json::Text(s),
        serde_json::Value::Array(items) => Json::Array(items.into_iter().map(lift).collect()),
        serde_json::Value::Object(entries) => Json::Object(
            entries.into_iter().map(|(k, v)| (k, lift(v))).collect(),
        ),
    }
}

/// Moves a [`Json`] into a `serde_json::Value`, variant by variant: a number is
/// read from its text by `serde_json::from_str::<serde_json::Number>`, the
/// members of an object are collected into a `serde_json::Map`. `None` where a
/// number's text is not read as a number. Used by `encode_text` alone.
#[verifier::external_body]
fn lower(value: &Json) -> Option<serde_json::Value> {
    Some(match value {
        Json::Null => serde_json::Value::Null,
        Json::Bool(b) => serde_json::Value::Bool(*b),
        Json::Number(n) => serde_json::Value::Number(serde_json::from_str(n).ok()?),
        Json::Text(s) => serde_json::Value::String(s.clone()),
        Json::Array(items) => serde_json::Value::Array(items.iter().map(lower).collect::<Option<_>>()?),
        Json::Object(entries) => serde_json::Value::Object(
            entries.iter().map(|(k, v)| Some((k.clone(), lower(v)?))).collect::<Option<_>>()?,
        ),
    })
}

/// `serde_json::from_str` at the type `serde_json::Value`, and the conversion
/// of what it reads: the result is a function of the text alone.
#[verifier::external_body]
pub(crate) fn decode_text(text: &str) -> (r: Option<Json>)
    ensures
        match r {
            Some(v) => json_decode(text@) == Some(v@),
            None => json_decode(text@) is None,
        },
{
    match serde_json::from_str::<serde_json::Value>(text) {
        Ok(value) => Some(lift(value)),
        Err(_) => None,
    }
}

/// `serde_json::to_string` on the conversion of `value`: the result is a
/// function of what the value holds.
#[verifier::external_body]
pub(crate) fn encode_text(value: &Json) -> (r: Option<String>)
    ensures
        match r {
            Some(text) => json_encode(value@) == Some(text@),
            None => json_encode(value@) is None,
        },
{
    serde_json::to_string(&lower(value)?).ok()
}

/// `String::from_utf8_lossy`: the result is a function of the bytes alone, and
/// for bytes that are valid UTF-8 it is the text they encode, unchanged.
#[verifier::external_body]
pub(crate) fn lossy_text(bytes: &[u8]) -> (r: String)
    ensures
        r@ == utf8_lossy(bytes@),
        valid_utf8(bytes@) ==> r@ == decode_utf8(bytes@),
{
    String::from_utf8_lossy(bytes).into_owned()
}

} // verus!
