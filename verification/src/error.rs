use vstd::prelude::*;

verus! {

/// Why opening a subscription failed, where the protocol itself decides it.
#[derive(Debug)]
pub enum ProtocolError {
    /// The server closed the connection before acknowledging it.
    ConnectionClosed,
    /// The server's first message was not a `connection_ack`.
    AckNotReceived,
    /// A frame that is not a text frame arrived where a message was expected;
    /// it holds the text that the frame displays as.
    NotText(String),
}

/// The text of the message that `ProtocolError::to_display_string` gives.
pub open spec fn protocol_error_text(e: ProtocolError) -> Seq<char> {
    match e {
        ProtocolError::ConnectionClosed => "connection closed"@,
        ProtocolError::AckNotReceived => "connection ack not received"@,
        ProtocolError::NotText(shown) => "message type not valid! only text messages are expected "@ + shown@,
    }
}

impl ProtocolError {
    /// The human-readable message of the error.
    pub fn to_display_string(&self) -> (r: String)
        ensures
            r@ == protocol_error_text(*self),
    {
        match self {
            ProtocolError::ConnectionClosed => String::from_str("connection closed"),
            ProtocolError::AckNotReceived => String::from_str("connection ack not received"),
            ProtocolError::NotText(shown) => {
                let mut s = String::from_str("message type not valid! only text messages are expected ");
                s.append(shown.as_str());
                s
            },
        }
    }
}

/// The refusal of a frame that is not text ends with the text the frame displays as, and
/// so tells any two such frames apart; the two handshake failures read differently.
pub proof fn lemma_error_texts_tell_errors_apart(a: String, b: String)
    ensures
        protocol_error_text(ProtocolError::NotText(a)).len() >= a@.len(),
        protocol_error_text(ProtocolError::NotText(a)).subrange(
            protocol_error_text(ProtocolError::NotText(a)).len() - a@.len(),
            protocol_error_text(ProtocolError::NotText(a)).len() as int,
        ) == a@,
        protocol_error_text(ProtocolError::NotText(a)) == protocol_error_text(
            ProtocolError::NotText(b),
        ) ==> a@ == b@,
        protocol_error_text(ProtocolError::ConnectionClosed) != protocol_error_text(
            ProtocolError::AckNotReceived,
        ),
{
    let ta = protocol_error_text(ProtocolError::NotText(a));
    let tb = protocol_error_text(ProtocolError::NotText(b));
    let prefix = "message type not valid! only text messages are expected "@;
    assert(ta.subrange(prefix.len() as int, ta.len() as int) =~= a@);
    assert(tb.subrange(prefix.len() as int, tb.len() as int) =~= b@);
    assert(ta.subrange(ta.len() - a@.len(), ta.len() as int) =~= a@);
    reveal_strlit("connection closed");
    reveal_strlit("connection ack not received");
    assert(protocol_error_text(ProtocolError::ConnectionClosed).len() != protocol_error_text(
        ProtocolError::AckNotReceived,
    ).len());
}

} // verus!
