use async_tungstenite::tungstenite;
use matchbox_socket::signaller::{
    next_message, on_sent, request_message, ConnectAttempts, SignallingError, WebSocketMessage,
};

fn failure() -> tungstenite::Error {
    tungstenite::Error::ConnectionClosed
}

fn failures_until_giving_up(attempts: u16) -> usize {
    let mut left = ConnectAttempts::new(Some(attempts));
    for made in 1..100 {
        if left.on_failure(failure()).is_some() {
            return made;
        }
    }
    panic!("never gave up");
}

#[test]
fn gives_up_after_the_last_attempt() {
    assert_eq!(failures_until_giving_up(1), 1);
    assert_eq!(failures_until_giving_up(2), 2);
    assert_eq!(failures_until_giving_up(5), 5);
}

#[test]
fn one_attempt_is_made_in_any_case() {
    assert_eq!(failures_until_giving_up(0), 1);
}

#[test]
fn attempts_are_counted_down() {
    let mut left = ConnectAttempts::new(Some(3));
    assert!(left.on_failure(failure()).is_none());
    assert_eq!(left.remaining, Some(2));
    assert!(left.on_failure(failure()).is_none());
    assert_eq!(left.remaining, Some(1));
    let error = left.on_failure(failure()).unwrap();
    match error {
        SignallingError::ConnectionFailed(inner) => {
            assert!(matches!(*inner, SignallingError::Socket(tungstenite::Error::ConnectionClosed)))
        }
        other => panic!("{:?}", other),
    }
}

#[test]
fn unlimited_attempts_never_end() {
    let mut left = ConnectAttempts::new(None);
    for _ in 0..1000 {
        assert!(left.on_failure(failure()).is_none());
    }
    assert_eq!(left.remaining, None);
}

#[test]
fn a_text_message_is_what_was_said() {
    let said = next_message(Some(Ok(WebSocketMessage::Text("hello".to_string()))));
    assert_eq!(said.unwrap(), "hello");
}

#[test]
fn a_request_is_what_the_other_end_is_told() {
    let message = request_message("request".to_string());
    assert_eq!(message, WebSocketMessage::Text("request".to_string()));
    assert_eq!(next_message(Some(Ok(message))).unwrap(), "request");
}

#[test]
fn other_messages_are_of_unknown_format() {
    let others = vec![
        WebSocketMessage::Binary(vec![1]),
        WebSocketMessage::Ping(vec![]),
        WebSocketMessage::Pong(vec![]),
        WebSocketMessage::Close,
        WebSocketMessage::Frame,
    ];
    for message in others {
        assert!(matches!(next_message(Some(Ok(message))), Err(SignallingError::UnknownFormat)));
    }
}

#[test]
fn a_socket_failure_is_passed_on() {
    assert!(matches!(
        next_message(Some(Err(failure()))),
        Err(SignallingError::Socket(tungstenite::Error::ConnectionClosed))
    ));
    assert!(matches!(
        on_sent(Err(tungstenite::Error::AlreadyClosed)),
        Err(SignallingError::Socket(tungstenite::Error::AlreadyClosed))
    ));
    assert!(on_sent(Ok(())).is_ok());
}

#[test]
fn an_ended_stream_is_exhausted() {
    assert!(matches!(next_message(None), Err(SignallingError::StreamExhausted)));
}
