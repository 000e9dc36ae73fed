//! Decoding an inbound payload into a `Reading`.
//!
//! A payload is UTF-8 text that must parse as a JSON value; the three
//! fields are then read by key, each coerced to its expected type if
//! present and type-correct, else treated as absent. The whole message is
//! rejected only when the text is not valid JSON at all.

use vstd::prelude::*;
use crate::reading::{JsonNumber, Reading, ReadingModel};

verus! {

/// What decoding a payload yields: `None` when the text is not valid JSON,
/// otherwise the three fields of the document's object, each `None` where
/// the key is absent or its value has the wrong type (a number for
/// `temperature` and `relative_humidity`, a string for `time`).
pub uninterp spec fn decoded_fields(payload: Seq<char>) -> Option<ReadingModel>;

/// Relies on `json::parse` for JSON parsing, on `JsonValue`'s index
/// operator (which yields `Null` for a missing key or a non-object
/// document), and on `as_number` / `as_str` for the coercion of a present
/// value to its expected type. The outcome depends on the payload text
/// alone. The `Err` text renders the parse error for logging; nothing is
/// claimed of it.
#[verifier::external_body]
fn decode_via_json(payload: &str) -> (r: Result<Reading, String>)
    ensures
        r is Ok <==> decoded_fields(payload@) is Some,
        r matches Ok(rd) ==> decoded_fields(payload@) == Some(rd@),
{
    match json::parse(payload) {
        Ok(doc) => Ok(Reading {
            temperature: doc["temperature"].as_number().map(|n| JsonNumber::from_parts(n.as_parts())),
            relative_humidity: doc["relative_humidity"].as_number().map(|n| JsonNumber::from_parts(n.as_parts())),
            time: doc["time"].as_str().map(|t| t.to_owned()),
        }),
        Err(err) => Err(format!("{}", err)),
    }
}

/// Decode one message payload into a `Reading`, or report why the text is
/// not valid JSON. Exactly the payloads that parse as JSON yield a
/// reading, and its fields are exactly the document's coerced fields.
pub fn decode_reading(payload: &str) -> (r: Result<Reading, String>)
    ensures
        r is Ok <==> decoded_fields(payload@) is Some,
        r matches Ok(rd) ==> decoded_fields(payload@) == Some(rd@),
{
    decode_via_json(payload)
}

} // verus!
