use serde_json::Value;
use tokio_graphql_ws::{
    Action, CloseKind, Fault, Incoming, Message, MessageType, Phase, ProtocolError, Session,
};

fn msg(type_: MessageType, payload: Option<Value>) -> Incoming {
    Incoming::Message(Message { type_, id: None, payload })
}

fn text(s: &str) -> Value {
    Value::String(s.to_owned())
}

fn streaming() -> Session {
    let (mut session, _) = Session::start(None);
    match session.step(msg(MessageType::ConnectionAck, None)) {
        Action::Subscribe => {}
        other => panic!("unexpected {:?}", other),
    }
    assert_eq!(session.phase(), Phase::Streaming);
    session
}

#[test]
fn start_sends_connection_init_with_payload() {
    let (session, init) = Session::start(Some(text("Alice")));
    assert_eq!(session.phase(), Phase::AwaitingAck);
    assert_eq!(init.type_, MessageType::ConnectionInit);
    assert_eq!(init.id, None);
    assert_eq!(init.payload, Some(text("Alice")));
}

#[test]
fn ack_with_payload_is_acknowledged_then_subscribed() {
    let (mut session, _) = Session::start(None);
    match session.step(msg(MessageType::ConnectionAck, Some(text("welcome")))) {
        Action::AcknowledgeThenSubscribe(p) => assert_eq!(p, text("welcome")),
        other => panic!("unexpected {:?}", other),
    }
    assert_eq!(session.phase(), Phase::Streaming);
}

#[test]
fn closed_before_ack_fails() {
    let (mut session, _) = Session::start(None);
    match session.step(Incoming::Ended) {
        Action::Fail(e) => assert_eq!(e.to_display_string(), "connection closed"),
        other => panic!("unexpected {:?}", other),
    }
    assert_eq!(session.phase(), Phase::Failed);
}

#[test]
fn other_first_message_is_not_an_ack() {
    let (mut session, _) = Session::start(None);
    match session.step(msg(MessageType::Next, Some(text("x")))) {
        Action::Fail(ProtocolError::AckNotReceived) => {}
        other => panic!("unexpected {:?}", other),
    }
    assert_eq!(session.phase(), Phase::Failed);
    // a failed session only ends the stream
    assert!(matches!(session.step(msg(MessageType::ConnectionAck, None)), Action::Finish));
    assert_eq!(session.phase(), Phase::Failed);
}

#[test]
fn undecodable_first_frame_fails_with_transport_error() {
    let (mut session, _) = Session::start(None);
    assert!(matches!(session.step(Incoming::Undecodable), Action::FailUndecodable));
    assert_eq!(session.phase(), Phase::Failed);
}

#[test]
fn results_are_delivered_in_order() {
    let mut session = streaming();
    for i in 0..10 {
        match session.step(msg(MessageType::Next, Some(Value::from(i)))) {
            Action::Deliver(p) => assert_eq!(p, Value::from(i)),
            other => panic!("unexpected {:?}", other),
        }
    }
    assert_eq!(session.phase(), Phase::Streaming);
}

#[test]
fn error_message_is_delivered_as_error() {
    let mut session = streaming();
    match session.step(msg(MessageType::Error, Some(text("bad")))) {
        Action::DeliverError(p) => assert_eq!(p, text("bad")),
        other => panic!("unexpected {:?}", other),
    }
    assert_eq!(session.phase(), Phase::Streaming);
}

#[test]
fn ping_is_answered_and_pong_noted() {
    let mut session = streaming();
    match session.step(msg(MessageType::Ping, Some(text("p")))) {
        Action::AnswerPing(p) => assert_eq!(p, Some(text("p"))),
        other => panic!("unexpected {:?}", other),
    }
    match session.step(msg(MessageType::Pong, None)) {
        Action::NotePong(p) => assert_eq!(p, None),
        other => panic!("unexpected {:?}", other),
    }
    assert_eq!(session.phase(), Phase::Streaming);
}

#[test]
fn complete_closes_normally() {
    let mut session = streaming();
    match session.step(msg(MessageType::Complete, None)) {
        Action::Close(kind) => {
            assert_eq!(kind, CloseKind::Normal);
            assert_eq!(kind.code(), 1000);
            assert_eq!(kind.reason(), "Normal Closure");
        }
        other => panic!("unexpected {:?}", other),
    }
    assert_eq!(session.phase(), Phase::Closed);
    assert!(matches!(session.step(msg(MessageType::Next, Some(text("late")))), Action::Finish));
}

#[test]
fn unexpected_type_closes_with_4400() {
    let mut session = streaming();
    match session.step(msg(MessageType::Subscribe, None)) {
        Action::Close(kind) => {
            assert_eq!(kind, CloseKind::InvalidMessageType);
            assert_eq!(kind.code(), 4400);
            assert_eq!(kind.reason(), "message type invalid");
        }
        other => panic!("unexpected {:?}", other),
    }
    assert_eq!(session.phase(), Phase::Closed);
}

#[test]
fn next_without_payload_aborts() {
    let mut session = streaming();
    match session.step(msg(MessageType::Next, None)) {
        Action::Abort(f) => {
            assert_eq!(f, Fault::NextWithoutPayload);
            assert_eq!(f.to_display_string(), "no payload received from next message");
        }
        other => panic!("unexpected {:?}", other),
    }
    assert_eq!(session.phase(), Phase::Failed);
}

#[test]
fn error_without_payload_aborts() {
    let mut session = streaming();
    match session.step(msg(MessageType::Error, None)) {
        Action::Abort(f) => {
            assert_eq!(f, Fault::ErrorWithoutPayload);
            assert_eq!(f.to_display_string(), "no payload received from error message");
        }
        other => panic!("unexpected {:?}", other),
    }
}

#[test]
fn end_of_connection_finishes_stream() {
    let mut session = streaming();
    assert!(matches!(session.step(Incoming::Ended), Action::Finish));
    assert_eq!(session.phase(), Phase::Closed);
    assert!(matches!(session.step(Incoming::Undecodable), Action::Finish));
}

#[test]
fn undecodable_frame_while_streaming_aborts() {
    let mut session = streaming();
    assert!(matches!(session.step(Incoming::Undecodable), Action::Abort(Fault::Undecodable)));
    assert_eq!(session.phase(), Phase::Failed);
}

#[test]
fn subscription_is_sent_once() {
    let mut session = streaming();
    // a second acknowledgement while streaming is an unexpected message type
    assert!(matches!(
        session.step(msg(MessageType::ConnectionAck, None)),
        Action::Close(CloseKind::InvalidMessageType)
    ));
}

#[test]
fn nothing_is_delivered_when_the_first_message_is_not_an_ack() {
    let (mut session, _) = Session::start(None);
    assert!(matches!(
        session.step(msg(MessageType::Ping, None)),
        Action::Fail(ProtocolError::AckNotReceived)
    ));
    for _ in 0..3 {
        assert!(matches!(session.step(msg(MessageType::Next, Some(text("x")))), Action::Finish));
    }
}
