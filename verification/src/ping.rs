//! The ping message.
use vstd::prelude::*;

use crate::message_type::{ExactMessageType, PING};

verus! {

/// Ping message
#[derive(Debug)]
pub struct Ping {
    /// Message type, always `MessageTypeEnum::Ping` here
    pub message_type: ExactMessageType<PING>,
}

impl Ping {
    /// Creates a ping message.
    pub fn new() -> (r: Self)
        ensures
            r == (Ping { message_type: ExactMessageType }),
    {
        Ping { message_type: ExactMessageType }
    }
}

impl Default for Ping {
    fn default() -> (r: Self)
        ensures
            r == (Ping { message_type: ExactMessageType }),
    {
        Self::new()
    }
}

} // verus!
