use std::collections::VecDeque;

use oxignal::framing::{frame_to_string_with_separator, queue_signalr_frames, RECORD_SEPARATOR};

fn queued(text: &str) -> Vec<String> {
    let mut frames = VecDeque::new();
    queue_signalr_frames(text, &mut frames);
    frames.into_iter().collect()
}

#[test]
fn frame_appends_separator() {
    let framed = frame_to_string_with_separator(String::from(r#"{"type":6}"#));
    assert_eq!(framed, "{\"type\":6}\u{1e}");
    assert_eq!(framed.chars().last(), Some(RECORD_SEPARATOR));
}

#[test]
fn split_two_frames() {
    assert_eq!(queued("{\"type\":6}\u{1e}{\"type\":7}\u{1e}"), vec!["{\"type\":6}", "{\"type\":7}"]);
}

#[test]
fn split_drops_empty_pieces() {
    assert_eq!(queued("\u{1e}\u{1e}a\u{1e}\u{1e}b"), vec!["a", "b"]);
    assert_eq!(queued(""), Vec::<String>::new());
    assert_eq!(queued("\u{1e}"), Vec::<String>::new());
}

#[test]
fn split_unterminated_text() {
    assert_eq!(queued("{}"), vec!["{}"]);
}

#[test]
fn split_multibyte_text() {
    assert_eq!(queued("é\u{1e}黑風\u{1e}ü"), vec!["é", "黑風", "ü"]);
}

#[test]
fn queue_keeps_waiting_frames_first() {
    let mut frames = VecDeque::new();
    frames.push_back(String::from("old"));
    queue_signalr_frames("new1\u{1e}new2\u{1e}", &mut frames);
    assert_eq!(frames, VecDeque::from(vec![String::from("old"), String::from("new1"), String::from("new2")]));
}

#[test]
fn framed_payloads_read_back() {
    let payloads = ["{\"type\":1,\"target\":\"Send\",\"arguments\":[42,\"Test Message\"]}", "{\"type\":6}"];
    let mut wire = String::new();
    for p in payloads {
        wire.push_str(&frame_to_string_with_separator(p.to_string()));
    }
    assert_eq!(queued(&wire), payloads.to_vec());
}
