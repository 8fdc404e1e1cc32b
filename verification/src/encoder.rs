//! The record encoder: one log record in, one JSON object out.

use vstd::prelude::*;
use vstd::string::*;
use crate::record::LogRecord;

verus! {

/// The key under which a record's message appears in its JSON object.
pub const MESSAGE_KEY: &'static str = "message";

/// What stands in for a record that could not be serialized.
pub const FALLBACK_TEXT: &'static str = "{\"message\":\"log record could not be encoded\"}";

/// The error type of `serde_json`, which the serializer reports failures
/// with. Nothing is known of its values.
#[verifier::external_type_specification]
#[verifier::external_body]
pub struct ExJsonError(serde_json::Error);

/// The compact JSON text that `serde_json` produces for an object with the
/// single member `key`, whose value is the string `value`; `None` where the
/// serializer reports an error.
pub uninterp spec fn json_object_text(key: Seq<char>, value: Seq<char>) -> Option<Seq<u8>>;

/// Calls `serde_json::to_vec` on a `serde_json::Map` that holds the one
/// member `key`, with the JSON string `value`.
///
/// Taken on trust: the outcome depends on `key` and `value` alone. It is
/// known to the proofs only as [`json_object_text`]; nothing else about the
/// bytes is assumed.
#[verifier::external_body]
fn json_object(key: &str, value: &str) -> (out: Result<Vec<u8>, serde_json::Error>)
    ensures
        match out {
            Ok(bytes) => json_object_text(key@, value@) == Some(bytes@),
            Err(_) => json_object_text(key@, value@) is None,
        },
{
    let mut object = serde_json::Map::new();
    object.insert(key.to_owned(), serde_json::Value::String(value.to_owned()));
    serde_json::to_vec(&object)
}

/// The bytes of [`FALLBACK_TEXT`].
pub open spec fn fallback_unit() -> Seq<u8> {
    FALLBACK_TEXT.spec_bytes()
}

/// The unit for a serializer outcome: the serialized bytes where there are
/// any, the fallback otherwise.
pub open spec fn unit_for(serialized: Option<Seq<u8>>) -> Seq<u8> {
    match serialized {
        Some(bytes) => bytes,
        None => fallback_unit(),
    }
}

/// The encoded unit of `record`: the JSON object that carries its message.
pub open spec fn encoded(record: &LogRecord) -> Seq<u8> {
    unit_for(json_object_text(MESSAGE_KEY@, record.message@))
}

/// Settles on the unit for a serializer outcome. A failed serialization is
/// never passed on: the fallback unit takes its place.
pub fn unit_or_fallback(serialized: Option<Vec<u8>>) -> (unit: Vec<u8>)
    ensures
        unit@ == unit_for(
            match serialized {
                Some(bytes) => Some(bytes@),
                None => None,
            },
        ),
{
    match serialized {
        Some(bytes) => bytes,
        None => FALLBACK_TEXT.as_bytes_vec(),
    }
}

/// Encodes `record` as one JSON object. Encoding cannot fail: where the
/// serializer gives up, the fallback unit is returned instead.
pub fn encode(record: &LogRecord) -> (unit: Vec<u8>)
    ensures
        unit@ == encoded(record),
{
    match json_object(MESSAGE_KEY, record.message.as_str()) {
        Ok(bytes) => unit_or_fallback(Some(bytes)),
        Err(_) => unit_or_fallback(None),
    }
}

} // verus!
