use oxignal::client::{completion_outcome, invocation_matches};
use oxignal::{Completion, Invocation};

#[test]
fn completion_with_value_for_awaited_id() {
    let frame = Completion::new(String::from("123"), 42u32);
    assert_eq!(completion_outcome(frame, Some(String::from("123"))), Ok(42));
}

#[test]
fn completion_with_error_for_awaited_id() {
    let frame: Completion<u32> = Completion::error(String::from("123"), String::from("Womp womp"));
    assert_eq!(completion_outcome(frame, Some(String::from("123"))), Err(String::from("Womp womp")));
}

#[test]
fn completion_for_other_id() {
    let frame = Completion::new(String::from("124"), 42u32);
    assert_eq!(
        completion_outcome(frame, Some(String::from("123"))),
        Err(String::from("Failed to receive message"))
    );
}

#[test]
fn completion_when_nothing_awaited() {
    let frame: Completion<u32> = Completion::new_void(String::from("123"));
    assert_eq!(completion_outcome(frame, None), Err(String::from("Failed to receive message")));
}

#[test]
fn server_invocation_target_match() {
    let inv = Invocation::new(None, String::from("Send"), (42u32, String::from("Hi")));
    assert!(invocation_matches(&inv, "Send"));
    assert!(!invocation_matches(&inv, "send"));
    assert!(!invocation_matches(&inv, "Sen"));
}
