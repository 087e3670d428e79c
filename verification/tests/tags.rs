//! The tag checks that reading hub messages performs, on the tags of the
//! JSON messages `{ "type": n }` and `{ "value": n }`.
use oxignal::message_type::{route_type_tag, ExactMessageType, TypeTag, INVOCATION, PING};
use oxignal::protocol::ping::PingMessage;
use oxignal::{MessageType, MessageTypeEnum, Ping};

#[test]
fn test_tags() {
    // {"type": 1, "target": "Send", ...} read as a MessageType
    let kind = route_type_tag(&TypeTag::Number(1)).unwrap();
    assert!(matches!(kind, MessageTypeEnum::Invocation));
    // and read as an Invocation
    ExactMessageType::<INVOCATION>::from_tag(1).unwrap();
}

#[test]
fn test_const_deserialization() {
    // { "value": 1 } for a field of type ExactMessageType<INVOCATION>
    ExactMessageType::<INVOCATION>::from_tag(1).unwrap();
}

#[test]
#[should_panic]
fn test_invalid_deserialization() {
    // { "value": 5 } for a field of type ExactMessageType<INVOCATION>
    ExactMessageType::<INVOCATION>::from_tag(5).unwrap();
}

#[test]
fn ping_test_deserialize_concrete() {
    // { "type": 6 } read as a Ping
    ExactMessageType::<PING>::from_tag(6).unwrap();
}

#[test]
fn ping_test_deserialize_variant() {
    // { "type": 6 } read as a MessageType
    let kind = route_type_tag(&TypeTag::Number(6)).unwrap();
    assert!(matches!(kind, MessageTypeEnum::Ping));
}

#[test]
#[should_panic]
fn test_deserialize_concrete_invalid() {
    // { "type": 69 } read as a Ping
    ExactMessageType::<PING>::from_tag(69).unwrap();
}

#[test]
#[should_panic]
fn test_deserialize_variant_invalid() {
    // { "type": 69 } read as a MessageType
    route_type_tag(&TypeTag::Number(69)).unwrap();
}

#[test]
#[should_panic]
fn test_invalid_deserialize() {
    // { "type": 69 } read as a PingMessage
    ExactMessageType::<PING>::from_tag(69).unwrap();
}

#[test]
fn test_serialize_concrete() {
    // a Ping is written as { "type": 6 }
    assert_eq!(Ping::new().message_type.tag(), 6);
}

#[test]
fn test_serialize_variant() {
    // a MessageType holding a Ping is written as { "type": 6 }
    assert_eq!(MessageType::Ping::<(), ()>(Ping::new()).tag(), 6);
}

#[test]
fn test_serialize() {
    // a PingMessage is written as { "type": 6 }
    assert_eq!(PingMessage::new().message_type.tag(), 6);
}
