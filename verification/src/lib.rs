//! A client library for the SignalR hub protocol over websockets, in its
//! JSON encoding: the hub messages, the framing of messages on the wire,
//! and the decisions of a client that reads and awaits them.
use vstd::prelude::*;

pub mod client;
pub mod connection;
pub mod decimal;
pub mod framing;
pub mod handshake;
pub mod invocation;
pub mod message_type;
pub mod ping;
pub mod protocol;
pub mod reader;

pub use connection::{Ack, Close, Sequence};
pub use handshake::{HandshakeRequest, HandshakeResponse};
pub use invocation::{CancelInvocation, Completion, CompletionResult, Invocation};
pub use message_type::{ExactMessageType, MessageType, MessageTypeEnum};
pub use ping::Ping;

verus! {

/// Marks the types that go over the wire as hub messages, so that nothing
/// else is sent as one.
pub trait SignalrMessage {}

impl SignalrMessage for Ack {}

impl SignalrMessage for Close {}

impl SignalrMessage for Sequence {}

impl SignalrMessage for HandshakeRequest {}

impl SignalrMessage for HandshakeResponse {}

impl SignalrMessage for CancelInvocation {}

impl<T> SignalrMessage for Completion<T> {}

impl<T> SignalrMessage for CompletionResult<T> {}

impl<T> SignalrMessage for Invocation<T> {}

impl SignalrMessage for Ping {}

} // verus!
