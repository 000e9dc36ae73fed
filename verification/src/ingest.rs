//! The per-message step of the ingestion loop.
//!
//! The loop itself blocks on the transport for the next delivered item;
//! this module decides, for one delivered item, what the loop does with
//! it: skip a payload-less sentinel, drop a malformed payload with a
//! warning, or store one row with the decoded values.

use vstd::prelude::*;
use crate::decode::{decode_reading, decoded_fields};
use crate::reading::Reading;

verus! {

/// What the ingestion loop does with one delivered item. Every action
/// continues the loop: nothing a message carries can terminate it.
pub enum MessageAction {
    /// The item carried no payload (a disconnect sentinel): do nothing.
    Skip,
    /// The payload is not valid JSON: log this warning, store nothing.
    DropMalformed(String),
    /// Store one row with the reading's (possibly absent) values.
    Store(Reading),
}

/// Decide the action for one delivered item. A payload-less item is
/// skipped; a payload that parses as JSON is stored as exactly its three
/// coerced fields; any other payload is dropped as malformed.
pub fn handle_message(item: Option<String>) -> (r: MessageAction)
    ensures
        item is None ==> r is Skip,
        item matches Some(payload) ==> {
            &&& (r is Store <==> decoded_fields(payload@) is Some)
            &&& (r is DropMalformed <==> decoded_fields(payload@) is None)
            &&& (r matches MessageAction::Store(rd) ==> decoded_fields(payload@) == Some(rd@))
        },
{
    match item {
        None => MessageAction::Skip,
        Some(payload) => match decode_reading(payload.as_str()) {
            Ok(rd) => MessageAction::Store(rd),
            Err(warning) => MessageAction::DropMalformed(warning),
        },
    }
}

} // verus!
