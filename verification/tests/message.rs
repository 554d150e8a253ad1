use serde_json::Value;
use tokio_graphql_ws::{Message, MessageType, ProtocolError, WsFrame};

fn is_uuid_v4(s: &str) -> bool {
    let chars: Vec<char> = s.chars().collect();
    chars.len() == 36
        && chars.iter().enumerate().all(|(i, c)| {
            if [8, 13, 18, 23].contains(&i) {
                *c == '-'
            } else {
                c.is_ascii_digit() || ('a'..='f').contains(c)
            }
        })
        && chars[14] == '4'
        && ['8', '9', 'a', 'b'].contains(&chars[19])
}

#[test]
fn subscribe_has_fresh_uuid_and_payload() {
    let payload = Value::String("query {greet}".to_owned());
    let m = Message::subscribe(payload.clone());
    assert_eq!(m.type_, MessageType::Subscribe);
    assert_eq!(m.payload, Some(payload));
    let id = m.id.expect("an id");
    assert!(is_uuid_v4(&id), "{}", id);
    let other = Message::subscribe(Value::Null).id.unwrap();
    assert!(is_uuid_v4(&other));
    assert_ne!(id, other);
}

#[test]
fn pong_carries_payload() {
    let m = Message::pong(Some(Value::Bool(true)));
    assert_eq!(m.type_, MessageType::Pong);
    assert_eq!(m.id, None);
    assert_eq!(m.payload, Some(Value::Bool(true)));
    assert_eq!(Message::pong(None).payload, None);
}

#[test]
fn connection_init_carries_payload() {
    let m = Message::connection_init(None);
    assert_eq!(m.type_, MessageType::ConnectionInit);
    assert_eq!(m.id, None);
    assert_eq!(m.payload, None);
}

#[test]
fn text_frame_gives_its_text() {
    match WsFrame::Text("{\"type\":\"ping\"}".to_owned()).into_text() {
        Ok(t) => assert_eq!(t, "{\"type\":\"ping\"}"),
        Err(e) => panic!("{:?}", e),
    }
}

#[test]
fn other_frame_is_refused() {
    match WsFrame::Other("Binary Data<length=3>".to_owned()).into_text() {
        Ok(t) => panic!("accepted {}", t),
        Err(e) => {
            assert!(matches!(e, ProtocolError::NotText(_)));
            assert_eq!(
                e.to_display_string(),
                "message type not valid! only text messages are expected Binary Data<length=3>"
            );
        }
    }
}

#[test]
fn protocol_error_texts() {
    assert_eq!(ProtocolError::ConnectionClosed.to_display_string(), "connection closed");
    assert_eq!(ProtocolError::AckNotReceived.to_display_string(), "connection ack not received");
}
