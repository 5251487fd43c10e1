//! The frames of the feed, as the sequencer broadcasts them.

use vstd::prelude::*;

verus! {

/// `serde_json::Value`: a piece of JSON that the client carries along
/// and never looks into.
#[verifier::external_type_specification]
#[verifier::external_body]
pub struct ExJsonValue(serde_json::Value);

/// `Clone` of `serde_json::Value`, which the frames' own `Clone` calls.
/// Nothing is claimed of the copy.
pub assume_specification[ <serde_json::Value as Clone>::clone ](
    value: &serde_json::Value,
) -> serde_json::Value;

/// One frame of the feed.
#[derive(Default, Debug, Clone, PartialEq)]
pub struct Root {
    /// The version of the feed protocol.
    pub version: i64,
    /// The messages of the frame, in the order they were broadcast.
    pub messages: Vec<BroadcastFeedMessage>,
}

/// One message of a frame.
#[derive(Default, Debug, Clone, PartialEq)]
pub struct BroadcastFeedMessage {
    /// The sequencer's number for the message. It can repeat or fall
    /// back when a connection is replaced.
    pub sequence_number: i64,
    /// The message and what was read with it.
    pub message: MessageWithMetadata,
    /// The sequencer's signature, unread.
    pub signature: serde_json::Value,
}

/// A message with the count of delayed messages read before it.
#[derive(Default, Debug, Clone, PartialEq)]
pub struct MessageWithMetadata {
    /// The message.
    pub message: L1IncomingMessageHeader,
    /// Delayed messages read so far.
    pub delayed_messages_read: i64,
}

/// A message as it came in: its header and its payload in base64.
#[derive(Default, Debug, Clone, PartialEq)]
pub struct L1IncomingMessageHeader {
    /// The header.
    pub header: Header,
    /// The payload, in base64.
    pub l2msg: String,
}

/// The header of a message. Only `kind` is read by the client.
#[derive(Default, Debug, Clone, PartialEq)]
pub struct Header {
    /// What the payload is; 3 is a message for the rollup.
    pub kind: i64,
    /// Who sent the message.
    pub sender: String,
    /// The block of the base chain the message belongs to.
    pub block_number: i64,
    /// The time of that block.
    pub timestamp: i64,
    /// The id of the request, unread.
    pub request_id: serde_json::Value,
    /// The base fee of the base chain, unread.
    pub base_fee_l1: serde_json::Value,
}

} // verus!
