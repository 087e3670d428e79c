//! Connection messages: close, acknowledgement and sequence.
use vstd::prelude::*;

use crate::message_type::{ExactMessageType, ACK, CLOSE, SEQUENCE};

verus! {

/// Sent to close the connection.
#[derive(Debug, Clone, PartialEq)]
pub struct Close {
    /// Message type, always `MessageTypeEnum::Close` here
    pub message_type: ExactMessageType<CLOSE>,
}

/// Acknowledges received messages.
#[derive(Debug, Clone, PartialEq)]
pub struct Ack {
    /// Message type, always `MessageTypeEnum::Ack` here
    pub message_type: ExactMessageType<ACK>,
    /// Number, specifying the amount of messages ack'd
    pub sequence_id: u32,
}

/// Announces the starting message ID.
#[derive(Debug, Clone, PartialEq)]
pub struct Sequence {
    /// Message type, always `MessageTypeEnum::Sequence` here
    pub message_type: ExactMessageType<SEQUENCE>,
    /// Number, specifying the new starting message ID
    ///
    /// Only sent on reconnects
    pub sequence_id: Option<u32>,
}

} // verus!
