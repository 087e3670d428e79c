//! The ping message.
use vstd::prelude::*;

use crate::message_type::{ExactMessageType, PING};

verus! {

/// Ping message
#[derive(Debug)]
pub struct PingMessage {
    /// Message type, always `MessageTypeEnum::Ping` here
    pub message_type: ExactMessageType<PING>,
}

impl PingMessage {
    /// Creates a ping message.
    pub fn new() -> (r: Self)
        ensures
            r == (PingMessage { message_type: ExactMessageType }),
    {
        PingMessage { message_type: ExactMessageType }
    }
}

} // verus!
