use std::collections::VecDeque;

use oxignal::reader::{handle_transport_event, next_queued_frame, ReadError, ReadStep, TransportEvent};

#[test]
fn text_event_queues_frames() {
    let mut frames = VecDeque::new();
    let step = handle_transport_event(TransportEvent::Text(String::from("a\u{1e}b\u{1e}")), &mut frames);
    assert!(matches!(step, ReadStep::Continue));
    assert_eq!(next_queued_frame(&mut frames), Some(String::from("a")));
    assert_eq!(next_queued_frame(&mut frames), Some(String::from("b")));
    assert_eq!(next_queued_frame(&mut frames), None);
}

#[test]
fn binary_event_decodes_utf8() {
    let mut frames = VecDeque::new();
    let step = handle_transport_event(TransportEvent::Binary("{\"type\":6}\u{1e}".as_bytes().to_vec()), &mut frames);
    assert!(matches!(step, ReadStep::Continue));
    assert_eq!(frames, VecDeque::from(vec![String::from("{\"type\":6}")]));
}

#[test]
fn binary_event_rejects_invalid_utf8() {
    let mut frames = VecDeque::new();
    let step = handle_transport_event(TransportEvent::Binary(vec![0xff, 0x1e]), &mut frames);
    match step {
        ReadStep::Fail(ReadError::InvalidUtf8(e)) => {
            assert_eq!(e.into_bytes(), vec![0xff, 0x1e]);
        }
        other => panic!("unexpected step {:?}", other),
    }
    assert!(frames.is_empty());
}

#[test]
fn ping_event_asks_for_pong() {
    let mut frames = VecDeque::new();
    let step = handle_transport_event(TransportEvent::Ping(vec![1, 2, 3]), &mut frames);
    assert!(matches!(step, ReadStep::SendPong(ref p) if p == &vec![1, 2, 3]));
    assert!(frames.is_empty());
}

#[test]
fn pong_and_raw_frame_events_continue() {
    let mut frames = VecDeque::new();
    assert!(matches!(handle_transport_event(TransportEvent::Pong, &mut frames), ReadStep::Continue));
    assert!(matches!(handle_transport_event(TransportEvent::Frame, &mut frames), ReadStep::Continue));
    assert!(frames.is_empty());
}

#[test]
fn close_event_fails_with_peer_message() {
    let mut frames = VecDeque::new();
    let step = handle_transport_event(TransportEvent::Close(String::from("None")), &mut frames);
    match step {
        ReadStep::Fail(e) => {
            assert_eq!(e.message(), Some(String::from("websocket closed by peer: None")));
        }
        other => panic!("unexpected step {:?}", other),
    }
}

#[test]
fn end_of_stream_fails() {
    let mut frames = VecDeque::new();
    let step = handle_transport_event(TransportEvent::Ended, &mut frames);
    match step {
        ReadStep::Fail(e) => {
            assert!(matches!(e, ReadError::Closed));
            assert_eq!(e.message(), Some(String::from("websocket closed")));
        }
        other => panic!("unexpected step {:?}", other),
    }
}

#[test]
fn next_queued_frame_on_empty_queue() {
    let mut frames: VecDeque<String> = VecDeque::new();
    assert_eq!(next_queued_frame(&mut frames), None);
}
