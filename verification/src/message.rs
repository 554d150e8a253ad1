use vstd::prelude::*;
use serde_json::Value;
use crate::error::ProtocolError;

verus! {

/// The kinds of message of the `graphql-transport-ws` protocol.
#[derive(Clone, Copy, Debug, PartialEq, Eq, Structural)]
pub enum MessageType {
    ConnectionInit,
    ConnectionAck,
    Ping,
    Pong,
    Subscribe,
    Next,
    Error,
    Complete,
}

/// One protocol message: its kind, an optional operation id and an optional payload.
#[derive(Debug)]
pub struct Message {
    pub type_: MessageType,
    pub id: Option<String>,
    pub payload: Option<Value>,
}

/// A lower-case hexadecimal digit.
pub open spec fn is_lower_hex(c: char) -> bool {
    ||| ('0' as u32 <= c as u32 && c as u32 <= '9' as u32)
    ||| ('a' as u32 <= c as u32 && c as u32 <= 'f' as u32)
}

/// The positions of the hyphens in a hyphenated UUID.
pub open spec fn is_uuid_hyphen_position(i: int) -> bool {
    i == 8 || i == 13 || i == 18 || i == 23
}

/// `s` is a random (version 4, RFC 4122 variant) UUID in lower-case hyphenated form,
/// such as `936da01f-9abd-4d9d-80c7-02af85c822a8`.
pub open spec fn is_hyphenated_uuid_v4(s: Seq<char>) -> bool {
    &&& s.len() == 36
    &&& forall|i: int|
        0 <= i < 36 ==> (if is_uuid_hyphen_position(i) {
            s[i] == '-'
        } else {
            is_lower_hex(#[trigger] s[i])
        })
    &&& s[14] == '4'
    &&& (s[19] == '8' || s[19] == '9' || s[19] == 'a' || s[19] == 'b')
}

/// A fresh operation id: `uuid::Uuid::new_v4()` written by `to_hyphenated().to_string()`.
/// Claimed of it: the text is 36 lower-case hexadecimal digits and hyphens in the
/// 8-4-4-4-12 layout, with the version digit `4` and an RFC 4122 variant digit
/// (uuid's `Builder::set_version`, `set_variant` and the adapter's `encode`).
/// Not claimed: which digits come out (they are random), nor that two calls differ.
/// `new_v4` panics when the operating system gives no random bytes; nothing here rules that out.
#[verifier::external_body]
fn fresh_operation_id() -> (id: String)
    ensures
        is_hyphenated_uuid_v4(id@),
{
    uuid::Uuid::new_v4().to_hyphenated().to_string()
}

impl Message {
    /// The message that opens the protocol, carrying the client's initial payload.
    pub fn connection_init(payload: Option<Value>) -> (r: Message)
        ensures
            r.type_ == MessageType::ConnectionInit,
            r.id is None,
            r.payload == payload,
    {
        Message { type_: MessageType::ConnectionInit, id: None, payload }
    }

    /// The message that starts an operation: a fresh random id and the request as payload.
    pub fn subscribe(payload: Value) -> (r: Message)
        ensures
            r.type_ == MessageType::Subscribe,
            r.id matches Some(id) && is_hyphenated_uuid_v4(id@),
            r.payload == Some(payload),
    {
        let id = fresh_operation_id();
        Message { type_: MessageType::Subscribe, id: Some(id), payload: Some(payload) }
    }

    /// The answer to a ping, carrying the payload that the client chose.
    pub fn pong(payload: Option<Value>) -> (r: Message)
        ensures
            r.type_ == MessageType::Pong,
            r.id is None,
            r.payload == payload,
    {
        Message { type_: MessageType::Pong, id: None, payload }
    }
}

/// A websocket frame as far as the protocol looks at it: a text frame with its text,
/// or a frame of another kind with the text that it displays as.
#[derive(Debug)]
pub enum WsFrame {
    Text(String),
    Other(String),
}

impl WsFrame {
    /// The text that carries a protocol message. Only text frames carry one;
    /// any other frame is refused with the way it displays.
    pub fn into_text(self) -> (r: Result<String, ProtocolError>)
        ensures
            match self {
                WsFrame::Text(t) => r == Ok::<String, ProtocolError>(t),
                WsFrame::Other(shown) => r == Err::<String, ProtocolError>(ProtocolError::NotText(shown)),
            },
    {
        match self {
            WsFrame::Text(t) => Ok(t),
            WsFrame::Other(shown) => Err(ProtocolError::NotText(shown)),
        }
    }
}

} // verus!
