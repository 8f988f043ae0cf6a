use crust_chat::session::{banner, prompt, Action, Event, Fatal, Session};

fn published(a: &Action) -> Option<(String, String)> {
    match a {
        Action::Publish(r) => Some((r.topic.clone(), r.payload.clone())),
        _ => None,
    }
}

#[test]
fn lines_then_end_publish_in_order_and_exit() {
    let mut s = Session::new();
    let mut actions = Vec::new();
    for e in [Event::Line("hello".to_string()), Event::Line("world".to_string()), Event::InputEnded] {
        assert!(s.is_running());
        actions.push(s.step(e));
    }
    assert_eq!(actions.len(), 3);
    assert_eq!(published(&actions[0]), Some(("chat".to_string(), "hello".to_string())));
    assert_eq!(published(&actions[1]), Some(("chat".to_string(), "world".to_string())));
    assert!(matches!(actions[2], Action::Exit));
    assert!(!s.is_running());
}

#[test]
fn ping_payload_is_printed_with_newline() {
    let mut s = Session::new();
    match s.step(Event::Record(Some(b"ping".to_vec()))) {
        Action::Print(bytes) => assert_eq!(bytes, b"ping\n".to_vec()),
        _ => panic!("expected a print"),
    }
    assert!(s.is_running());
}

#[test]
fn payload_bytes_are_not_transformed() {
    let mut s = Session::new();
    let payload = vec![0u8, 255, 10, 13, b'x'];
    match s.step(Event::Record(Some(payload.clone()))) {
        Action::Print(bytes) => {
            let mut expected = payload;
            expected.push(b'\n');
            assert_eq!(bytes, expected);
        }
        _ => panic!("expected a print"),
    }
}

#[test]
fn empty_payload_prints_only_newline() {
    let mut s = Session::new();
    match s.step(Event::Record(Some(Vec::new()))) {
        Action::Print(bytes) => assert_eq!(bytes, b"\n".to_vec()),
        _ => panic!("expected a print"),
    }
}

#[test]
fn missing_payload_is_fatal() {
    let mut s = Session::new();
    match s.step(Event::Record(None)) {
        Action::Fail(f) => {
            assert_eq!(f, Fatal::MissingPayload);
            assert_eq!(f.message(), "missing payload");
        }
        _ => panic!("expected a failure"),
    }
    assert!(!s.is_running());
}

#[test]
fn receive_failure_is_fatal() {
    let mut s = Session::new();
    assert!(matches!(s.step(Event::ReceiveFailed), Action::Fail(Fatal::ReceiveFailed)));
    assert!(!s.is_running());
    assert_eq!(Fatal::ReceiveFailed.message(), "failed to read message");
}

#[test]
fn publish_failure_is_fatal() {
    let mut s = Session::new();
    assert!(published(&s.step(Event::Line("hi".to_string()))).is_some());
    assert!(matches!(s.step(Event::PublishFailed), Action::Fail(Fatal::PublishFailed)));
    assert!(!s.is_running());
    assert_eq!(Fatal::PublishFailed.message(), "failed to produce");
}

#[test]
fn immediate_end_of_input_exits_without_publishing() {
    let mut s = Session::new();
    assert!(matches!(s.step(Event::InputEnded), Action::Exit));
    assert!(!s.is_running());
}

#[test]
fn empty_line_is_published_as_is() {
    let mut s = Session::new();
    let a = s.step(Event::Line(String::new()));
    assert_eq!(published(&a), Some(("chat".to_string(), String::new())));
}

#[test]
fn records_and_lines_interleave() {
    let mut s = Session::new();
    assert!(matches!(s.step(Event::Record(Some(b"a".to_vec()))), Action::Print(_)));
    let a = s.step(Event::Line("b".to_string()));
    assert_eq!(published(&a), Some(("chat".to_string(), "b".to_string())));
    assert!(s.is_running());
}

#[test]
fn banner_and_prompt_text() {
    assert_eq!(banner(), "Initializing crust chat.\n");
    assert_eq!(prompt(), "> ");
}
