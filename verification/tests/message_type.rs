use oxignal::message_type::{route_type_tag, ExactMessageType, MessageTypeEnum, TypeTag};
use oxignal::decimal::to_decimal;
use oxignal::{MessageType, Ping, Invocation};

#[test]
fn try_from_every_wire_number() {
    let kinds = [
        MessageTypeEnum::Invocation,
        MessageTypeEnum::StreamItem,
        MessageTypeEnum::Completion,
        MessageTypeEnum::StreamInvocation,
        MessageTypeEnum::CancelInvocation,
        MessageTypeEnum::Ping,
        MessageTypeEnum::Close,
        MessageTypeEnum::Ack,
        MessageTypeEnum::Sequence,
    ];
    for (i, kind) in kinds.iter().enumerate() {
        let code = (i + 1) as u8;
        assert_eq!(MessageTypeEnum::try_from(code), Ok(kind.clone()));
        assert_eq!(kind.code(), code);
        assert_eq!(kind.name(), format!("{:?}", kind));
    }
}

#[test]
fn try_from_rejects_unknown_numbers() {
    assert_eq!(MessageTypeEnum::try_from(0), Err(0));
    assert_eq!(MessageTypeEnum::try_from(10), Err(10));
    assert_eq!(MessageTypeEnum::try_from(69), Err(69));
    assert_eq!(MessageTypeEnum::try_from(255), Err(255));
}

#[test]
fn wire_number_constants() {
    assert_eq!(MessageTypeEnum::INVOCATION, 1);
    assert_eq!(MessageTypeEnum::STREAM_ITEM, 2);
    assert_eq!(MessageTypeEnum::COMPLETION, 3);
    assert_eq!(MessageTypeEnum::STREAM_INVOCATION, 4);
    assert_eq!(MessageTypeEnum::CANCEL_INVOCATION, 5);
    assert_eq!(MessageTypeEnum::PING, 6);
    assert_eq!(MessageTypeEnum::CLOSE, 7);
    assert_eq!(MessageTypeEnum::ACK, 8);
    assert_eq!(MessageTypeEnum::SEQUENCE, 9);
}

#[test]
fn exact_tag_accepts_its_number() {
    assert!(ExactMessageType::<1>::from_tag(1).is_ok());
    assert!(ExactMessageType::<6>::from_tag(6).is_ok());
    assert_eq!(ExactMessageType::<6>::from_tag(6).unwrap().tag(), 6);
}

#[test]
fn exact_tag_rejects_other_kind() {
    let err = ExactMessageType::<1>::from_tag(5).unwrap_err();
    assert_eq!(err, "expected message_type Invocation, got CancelInvocation");
}

#[test]
fn exact_tag_rejects_unknown_number() {
    let err = ExactMessageType::<6>::from_tag(69).unwrap_err();
    assert_eq!(err, "expected message_type Ping, got 69");
    let err = ExactMessageType::<42>::from_tag(0).unwrap_err();
    assert_eq!(err, "expected message_type 42, got 0");
}

#[test]
fn route_known_tags() {
    assert_eq!(route_type_tag(&TypeTag::Number(1)), Ok(MessageTypeEnum::Invocation));
    assert_eq!(route_type_tag(&TypeTag::Number(3)), Ok(MessageTypeEnum::Completion));
    assert_eq!(route_type_tag(&TypeTag::Number(5)), Ok(MessageTypeEnum::CancelInvocation));
    assert_eq!(route_type_tag(&TypeTag::Number(6)), Ok(MessageTypeEnum::Ping));
    assert_eq!(route_type_tag(&TypeTag::Number(7)), Ok(MessageTypeEnum::Close));
    assert_eq!(route_type_tag(&TypeTag::Number(8)), Ok(MessageTypeEnum::Ack));
    assert_eq!(route_type_tag(&TypeTag::Number(9)), Ok(MessageTypeEnum::Sequence));
}

#[test]
fn route_rejects_bad_tags() {
    assert_eq!(route_type_tag(&TypeTag::Missing), Err(String::from("Type tag not found")));
    assert_eq!(
        route_type_tag(&TypeTag::NotANumber),
        Err(String::from("Failed to convert to number"))
    );
    assert_eq!(
        route_type_tag(&TypeTag::Number(69)),
        Err(String::from("Unknown message type: 69"))
    );
    assert_eq!(
        route_type_tag(&TypeTag::Number(0)),
        Err(String::from("Unknown message type: 0"))
    );
    assert_eq!(
        route_type_tag(&TypeTag::Number(256)),
        Err(String::from("Unknown message type: 256"))
    );
}

#[test]
fn message_tag_routes_back_to_its_variant() {
    let ping: MessageType<(), ()> = MessageType::Ping(Ping::new());
    assert_eq!(ping.tag(), 6);
    assert_eq!(route_type_tag(&TypeTag::Number(ping.tag() as u64)), Ok(MessageTypeEnum::Ping));
    let inv: MessageType<(i32, String), ()> =
        MessageType::Invocation(Invocation::new(None, String::from("Send"), (42, String::from("Test Message"))));
    assert_eq!(inv.tag(), 1);
    assert_eq!(
        route_type_tag(&TypeTag::Number(inv.tag() as u64)),
        Ok(MessageTypeEnum::Invocation)
    );
}

#[test]
fn decimal_rendering() {
    assert_eq!(to_decimal(0), "0");
    assert_eq!(to_decimal(7), "7");
    assert_eq!(to_decimal(69), "69");
    assert_eq!(to_decimal(255), "255");
    assert_eq!(to_decimal(u64::MAX), u64::MAX.to_string());
}
