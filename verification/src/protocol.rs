//! Hub messages in their loose form: the IDs of cancellations and completions
//! are optional, and a completion carries its value and its error side by side.
use vstd::prelude::*;

use crate::message_type::{
    ExactMessageType, ACK, CANCEL_INVOCATION, CLOSE, COMPLETION, INVOCATION, SEQUENCE,
};

pub mod handshake;
pub mod ping;

verus! {

/// A call of a hub method.
#[derive(Debug)]
pub struct Invocation<T> {
    /// Message type, always `MessageTypeEnum::Invocation` here
    pub message_type: ExactMessageType<INVOCATION>,
    /// ID used for blocking invocations to backreference the callee
    pub invocation_id: Option<String>,
    /// Target function to be called
    pub target: String,
    /// Function call arguments
    pub arguments: T,
    /// Unique stream IDs consumed by the target
    pub stream_ids: Vec<String>,
}

impl<T> Invocation<T> {
    /// Creates an invocation of `target` with `arguments` and no stream IDs.
    pub fn new(invocation_id: Option<String>, target: String, arguments: T) -> (r: Self)
        ensures
            r.invocation_id == invocation_id,
            r.target == target,
            r.arguments == arguments,
            r.stream_ids@ == Seq::<String>::empty(),
    {
        Invocation {
            message_type: ExactMessageType,
            invocation_id,
            target,
            arguments,
            stream_ids: Vec::new(),
        }
    }
}

/// Asks the server to cancel an invocation.
#[derive(Debug, Clone, PartialEq)]
pub struct CancelInvocation {
    /// Message type, always `MessageTypeEnum::CancelInvocation` here
    pub message_type: ExactMessageType<CANCEL_INVOCATION>,
    /// ID used for blocking invocations to backreference the callee
    pub invocation_id: Option<String>,
}

/// Indicates completion of an invocation. May report an error.
///
/// This message type is absent for `void` methods
#[derive(Debug, Clone, PartialEq)]
pub struct Completion<T> {
    /// Message type, always `MessageTypeEnum::Completion` here
    pub message_type: ExactMessageType<COMPLETION>,
    /// ID used for blocking invocations to backreference the callee
    pub invocation_id: Option<String>,
    /// Result value, ignored if error is not null
    pub result: Option<T>,
    /// Error message
    pub error: Option<String>,
}

/// Sent to close the connection.
#[derive(Debug, Clone, PartialEq)]
pub struct Close {
    /// Message type, always `MessageTypeEnum::Close` here
    pub message_type: ExactMessageType<CLOSE>,
}

/// Acknowledges received messages.
#[derive(Debug, Clone, PartialEq)]
pub struct Ack {
    /// Message type, always `MessageTypeEnum::Ack` here
    pub message_type: ExactMessageType<ACK>,
    /// Number, specifying the amount of messages ack'd
    pub sequence_id: u32,
}

/// Announces the starting message ID.
#[derive(Debug, Clone, PartialEq)]
pub struct Sequence {
    /// Message type, always `MessageTypeEnum::Sequence` here
    pub message_type: ExactMessageType<SEQUENCE>,
    /// Number, specifying the new starting message ID
    ///
    /// Only sent on reconnects
    pub sequence_id: Option<u32>,
}

} // verus!
