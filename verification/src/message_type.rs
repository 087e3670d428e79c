//! Message kinds of the hub protocol and the `type` tag that names them.
use vstd::prelude::*;

use crate::connection::{Ack, Close, Sequence};
use crate::decimal::{decimal, to_decimal};
use crate::invocation::{CancelInvocation, Completion, Invocation};
use crate::ping::Ping;

verus! {

/// Wire numbers of the message kinds, for use in types.
pub const INVOCATION: u8 = 1;
pub const STREAM_ITEM: u8 = 2;
pub const COMPLETION: u8 = 3;
pub const STREAM_INVOCATION: u8 = 4;
pub const CANCEL_INVOCATION: u8 = 5;
pub const PING: u8 = 6;
pub const CLOSE: u8 = 7;
pub const ACK: u8 = 8;
pub const SEQUENCE: u8 = 9;

/// The kinds of hub messages, in the order of their wire numbers 1 to 9.
#[derive(Debug, Clone, PartialEq, Eq, Structural)]
pub enum MessageTypeEnum {
    Invocation,
    StreamItem,
    Completion,
    StreamInvocation,
    CancelInvocation,
    Ping,
    Close,
    Ack,
    Sequence,
}

impl MessageTypeEnum {
    pub const INVOCATION: u8 = INVOCATION;
    pub const STREAM_ITEM: u8 = STREAM_ITEM;
    pub const COMPLETION: u8 = COMPLETION;
    pub const STREAM_INVOCATION: u8 = STREAM_INVOCATION;
    pub const CANCEL_INVOCATION: u8 = CANCEL_INVOCATION;
    pub const PING: u8 = PING;
    pub const CLOSE: u8 = CLOSE;
    pub const ACK: u8 = ACK;
    pub const SEQUENCE: u8 = SEQUENCE;

    /// The wire number of a kind.
    pub open spec fn wire_code(self) -> u8 {
        match self {
            MessageTypeEnum::Invocation => 1,
            MessageTypeEnum::StreamItem => 2,
            MessageTypeEnum::Completion => 3,
            MessageTypeEnum::StreamInvocation => 4,
            MessageTypeEnum::CancelInvocation => 5,
            MessageTypeEnum::Ping => 6,
            MessageTypeEnum::Close => 7,
            MessageTypeEnum::Ack => 8,
            MessageTypeEnum::Sequence => 9,
        }
    }

    /// The kind whose wire number is `code`, if there is one.
    pub open spec fn with_code(code: u8) -> Option<MessageTypeEnum> {
        if code == 1 {
            Some(MessageTypeEnum::Invocation)
        } else if code == 2 {
            Some(MessageTypeEnum::StreamItem)
        } else if code == 3 {
            Some(MessageTypeEnum::Completion)
        } else if code == 4 {
            Some(MessageTypeEnum::StreamInvocation)
        } else if code == 5 {
            Some(MessageTypeEnum::CancelInvocation)
        } else if code == 6 {
            Some(MessageTypeEnum::Ping)
        } else if code == 7 {
            Some(MessageTypeEnum::Close)
        } else if code == 8 {
            Some(MessageTypeEnum::Ack)
        } else if code == 9 {
            Some(MessageTypeEnum::Sequence)
        } else {
            None
        }
    }

    /// The variant's name, as `Debug` prints it.
    pub open spec fn variant_name(self) -> Seq<char> {
        match self {
            MessageTypeEnum::Invocation => "Invocation"@,
            MessageTypeEnum::StreamItem => "StreamItem"@,
            MessageTypeEnum::Completion => "Completion"@,
            MessageTypeEnum::StreamInvocation => "StreamInvocation"@,
            MessageTypeEnum::CancelInvocation => "CancelInvocation"@,
            MessageTypeEnum::Ping => "Ping"@,
            MessageTypeEnum::Close => "Close"@,
            MessageTypeEnum::Ack => "Ack"@,
            MessageTypeEnum::Sequence => "Sequence"@,
        }
    }

    /// Returns the wire number of the kind.
    pub fn code(&self) -> (c: u8)
        ensures
            c == self.wire_code(),
    {
        match self {
            MessageTypeEnum::Invocation => Self::INVOCATION,
            MessageTypeEnum::StreamItem => Self::STREAM_ITEM,
            MessageTypeEnum::Completion => Self::COMPLETION,
            MessageTypeEnum::StreamInvocation => Self::STREAM_INVOCATION,
            MessageTypeEnum::CancelInvocation => Self::CANCEL_INVOCATION,
            MessageTypeEnum::Ping => Self::PING,
            MessageTypeEnum::Close => Self::CLOSE,
            MessageTypeEnum::Ack => Self::ACK,
            MessageTypeEnum::Sequence => Self::SEQUENCE,
        }
    }

    /// Returns the variant's name, as `Debug` prints it.
    pub fn name(&self) -> (s: &'static str)
        ensures
            s@ == self.variant_name(),
    {
        match self {
            MessageTypeEnum::Invocation => "Invocation",
            MessageTypeEnum::StreamItem => "StreamItem",
            MessageTypeEnum::Completion => "Completion",
            MessageTypeEnum::StreamInvocation => "StreamInvocation",
            MessageTypeEnum::CancelInvocation => "CancelInvocation",
            MessageTypeEnum::Ping => "Ping",
            MessageTypeEnum::Close => "Close",
            MessageTypeEnum::Ack => "Ack",
            MessageTypeEnum::Sequence => "Sequence",
        }
    }
}

impl TryFrom<u8> for MessageTypeEnum {
    type Error = u8;

    /// The kind numbered `value`, or `value` itself back when no kind has that number.
    fn try_from(value: u8) -> (r: Result<Self, u8>) {
        if value == Self::INVOCATION {
            Ok(MessageTypeEnum::Invocation)
        } else if value == Self::STREAM_ITEM {
            Ok(MessageTypeEnum::StreamItem)
        } else if value == Self::COMPLETION {
            Ok(MessageTypeEnum::Completion)
        } else if value == Self::STREAM_INVOCATION {
            Ok(MessageTypeEnum::StreamInvocation)
        } else if value == Self::CANCEL_INVOCATION {
            Ok(MessageTypeEnum::CancelInvocation)
        } else if value == Self::PING {
            Ok(MessageTypeEnum::Ping)
        } else if value == Self::CLOSE {
            Ok(MessageTypeEnum::Close)
        } else if value == Self::ACK {
            Ok(MessageTypeEnum::Ack)
        } else if value == Self::SEQUENCE {
            Ok(MessageTypeEnum::Sequence)
        } else {
            Err(value)
        }
    }
}

impl vstd::std_specs::convert::TryFromSpecImpl<u8> for MessageTypeEnum {
    open spec fn obeys_try_from_spec() -> bool {
        true
    }

    open spec fn try_from_spec(v: u8) -> Result<Self, u8> {
        match MessageTypeEnum::with_code(v) {
            Some(t) => Ok(t),
            None => Err(v),
        }
    }
}

} // verus!

verus! {

/// The text a tag describes itself with in an error: the kind's name where the
/// number is a kind's, else the number in decimal.
pub open spec fn tag_description(code: u8) -> Seq<char> {
    match MessageTypeEnum::with_code(code) {
        Some(t) => t.variant_name(),
        None => decimal(code as nat),
    }
}

/// The error for a `type` tag `got` where the tag `expected` is required.
pub open spec fn tag_mismatch_message(expected: u8, got: u8) -> Seq<char> {
    "expected message_type "@ + tag_description(expected) + ", got "@ + tag_description(got)
}

/// Renders a tag as `tag_description` says.
pub fn describe_tag(code: u8) -> (s: String)
    ensures
        s@ == tag_description(code),
{
    match MessageTypeEnum::try_from(code) {
        Ok(t) => t.name().to_owned(),
        Err(_) => to_decimal(code as u64),
    }
}

/// A `type` tag that holds exactly the wire number `T`.
#[derive(Debug, PartialEq, Eq, PartialOrd, Ord, Clone)]
pub struct ExactMessageType<const T: u8>;

impl<const T: u8> ExactMessageType<T> {
    /// Accepts the tag `value` when it is `T`, else gives the mismatch message.
    pub fn from_tag(value: u8) -> (r: Result<Self, String>)
        ensures
            r is Ok <==> value == T,
            r matches Err(m) ==> m@ == tag_mismatch_message(T, value),
    {
        if value == T {
            Ok(ExactMessageType)
        } else {
            let mut m = "expected message_type ".to_owned();
            let expected = describe_tag(T);
            m.append(expected.as_str());
            m.append(", got ");
            let got = describe_tag(value);
            m.append(got.as_str());
            Err(m)
        }
    }

    /// The wire number this tag carries.
    pub fn tag(&self) -> (c: u8)
        ensures
            c == T,
    {
        T
    }
}

} // verus!

verus! {

/// Any hub message that the client handles, each kind with its own payload.
#[derive(Debug)]
pub enum MessageType<T, U> {
    Invocation(Invocation<T>),
    Completion(Completion<U>),
    CancelInvocation(CancelInvocation),
    Ping(Ping),
    Close(Close),
    Ack(Ack),
    Sequence(Sequence),
}

/// The kind of a message, by its variant.
pub open spec fn message_kind<T, U>(m: MessageType<T, U>) -> MessageTypeEnum {
    match m {
        MessageType::Invocation(_) => MessageTypeEnum::Invocation,
        MessageType::Completion(_) => MessageTypeEnum::Completion,
        MessageType::CancelInvocation(_) => MessageTypeEnum::CancelInvocation,
        MessageType::Ping(_) => MessageTypeEnum::Ping,
        MessageType::Close(_) => MessageTypeEnum::Close,
        MessageType::Ack(_) => MessageTypeEnum::Ack,
        MessageType::Sequence(_) => MessageTypeEnum::Sequence,
    }
}

impl<T, U> MessageType<T, U> {
    /// The `type` tag the message is written with: that of the message it holds.
    pub fn tag(&self) -> (c: u8)
        ensures
            c == message_kind(*self).wire_code(),
            *self is Invocation ==> c == 1,
            *self is Completion ==> c == 3,
            *self is CancelInvocation ==> c == 5,
            *self is Ping ==> c == 6,
            *self is Close ==> c == 7,
            *self is Ack ==> c == 8,
            *self is Sequence ==> c == 9,
    {
        match self {
            MessageType::Invocation(m) => m.message_type.tag(),
            MessageType::Completion(m) => m.message_type.tag(),
            MessageType::CancelInvocation(m) => m.message_type.tag(),
            MessageType::Ping(m) => m.message_type.tag(),
            MessageType::Close(m) => m.message_type.tag(),
            MessageType::Ack(m) => m.message_type.tag(),
            MessageType::Sequence(m) => m.message_type.tag(),
        }
    }
}

/// What a message's `type` field held, as far as routing needs it.
#[derive(Debug, Clone, PartialEq, Eq, Structural)]
pub enum TypeTag {
    /// The message has no `type` field
    Missing,
    /// The `type` field is not an unsigned integer
    NotANumber,
    /// The `type` field holds this number
    Number(u64),
}

/// The kind a tag routes a message to, or the error that rejects it.
pub open spec fn tag_route(tag: TypeTag) -> Result<MessageTypeEnum, Seq<char>> {
    match tag {
        TypeTag::Missing => Err("Type tag not found"@),
        TypeTag::NotANumber => Err("Failed to convert to number"@),
        TypeTag::Number(n) => if 1 <= n <= 9 {
            Ok(MessageTypeEnum::with_code(n as u8)->0)
        } else {
            Err("Unknown message type: "@ + decimal(n as nat))
        },
    }
}

/// Holds of the tags of the streaming kinds, which the client does not handle.
pub open spec fn is_stream_tag(tag: TypeTag) -> bool {
    tag == TypeTag::Number(MessageTypeEnum::STREAM_ITEM as u64) || tag == TypeTag::Number(
        MessageTypeEnum::STREAM_INVOCATION as u64,
    )
}

/// Decides which kind of message a `type` tag announces, or why it is rejected.
pub fn route_type_tag(tag: &TypeTag) -> (r: Result<MessageTypeEnum, String>)
    requires
        !is_stream_tag(*tag),
    ensures
        r matches Ok(k) ==> tag_route(*tag) == Ok::<MessageTypeEnum, Seq<char>>(k),
        r matches Err(m) ==> tag_route(*tag) == Err::<MessageTypeEnum, Seq<char>>(m@),
{
    match tag {
        TypeTag::Missing => Err("Type tag not found".to_owned()),
        TypeTag::NotANumber => Err("Failed to convert to number".to_owned()),
        TypeTag::Number(n) => {
            let n = *n;
            if n <= 255 {
                if let Ok(k) = MessageTypeEnum::try_from(n as u8) {
                    return Ok(k);
                }
            }
            let mut m = "Unknown message type: ".to_owned();
            let d = to_decimal(n);
            m.append(d.as_str());
            Err(m)
        },
    }
}

/// Each variant of a message is of the kind of the same name, and each kind
/// has the wire number the hub protocol gives it.
pub proof fn lemma_kind_of_variant<T, U>(m: MessageType<T, U>)
    ensures
        m is Invocation <==> message_kind(m) == MessageTypeEnum::Invocation,
        m is Completion <==> message_kind(m) == MessageTypeEnum::Completion,
        m is CancelInvocation <==> message_kind(m) == MessageTypeEnum::CancelInvocation,
        m is Ping <==> message_kind(m) == MessageTypeEnum::Ping,
        m is Close <==> message_kind(m) == MessageTypeEnum::Close,
        m is Ack <==> message_kind(m) == MessageTypeEnum::Ack,
        m is Sequence <==> message_kind(m) == MessageTypeEnum::Sequence,
        MessageTypeEnum::Invocation.wire_code() == 1,
        MessageTypeEnum::StreamItem.wire_code() == 2,
        MessageTypeEnum::Completion.wire_code() == 3,
        MessageTypeEnum::StreamInvocation.wire_code() == 4,
        MessageTypeEnum::CancelInvocation.wire_code() == 5,
        MessageTypeEnum::Ping.wire_code() == 6,
        MessageTypeEnum::Close.wire_code() == 7,
        MessageTypeEnum::Ack.wire_code() == 8,
        MessageTypeEnum::Sequence.wire_code() == 9,
{
}

/// A message's `type` tag routes back to the message's own kind: what a
/// message is written with, reading dispatches on to the same variant.
pub proof fn lemma_tag_routes_to_kind<T, U>(m: MessageType<T, U>)
    ensures
        tag_route(TypeTag::Number(message_kind(m).wire_code() as u64)) == Ok::<
            MessageTypeEnum,
            Seq<char>,
        >(message_kind(m)),
        !is_stream_tag(TypeTag::Number(message_kind(m).wire_code() as u64)),
{
}

/// The kind that has a kind's wire number is that kind.
pub proof fn lemma_code_round_trip(k: MessageTypeEnum)
    ensures
        MessageTypeEnum::with_code(k.wire_code()) == Some(k),
{
}

/// Exactly the numbers 1 to 9 are wire numbers, and each is the number of its kind.
pub proof fn lemma_with_code_inverse(code: u8)
    ensures
        MessageTypeEnum::with_code(code) is Some <==> 1 <= code <= 9,
        MessageTypeEnum::with_code(code) matches Some(k) ==> k.wire_code() == code,
{
}

} // verus!
