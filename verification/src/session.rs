use vstd::prelude::*;
use serde_json::Value;
use crate::error::ProtocolError;
use crate::message::{Message, MessageType};

verus! {

/// Where a client session of the protocol stands.
#[derive(Clone, Copy, Debug, PartialEq, Eq, Structural)]
pub enum Phase {
    /// `connection_init` was sent; the server's acknowledgement is awaited.
    AwaitingAck,
    /// The operation was subscribed; results arrive.
    Streaming,
    /// The stream has ended, by the server or by the client closing it.
    Closed,
    /// The session broke off: the handshake failed or the server broke the protocol.
    Failed,
}

/// What the transport handed over next.
#[derive(Debug)]
pub enum Incoming {
    /// A protocol message, decoded from a text frame.
    Message(Message),
    /// The connection has no more frames.
    Ended,
    /// A frame arrived that could not be read as a protocol message
    /// (a transport error, a frame that is not text, or text that is not a message).
    Undecodable,
}

/// Why the stream of results is aborted.
#[derive(Clone, Copy, Debug, PartialEq, Eq, Structural)]
pub enum Fault {
    /// A `next` message came without a payload.
    NextWithoutPayload,
    /// An `error` message came without a payload.
    ErrorWithoutPayload,
    /// A frame could not be read as a protocol message while results were streaming.
    Undecodable,
}

/// The text with which the stream is aborted.
pub open spec fn fault_text(fault: Fault) -> Seq<char> {
    match fault {
        Fault::NextWithoutPayload => "no payload received from next message"@,
        Fault::ErrorWithoutPayload => "no payload received from error message"@,
        Fault::Undecodable => "a frame could not be read as a protocol message"@,
    }
}

impl Fault {
    /// The text with which the stream is aborted.
    pub fn to_display_string(&self) -> (r: String)
        ensures
            r@ == fault_text(*self),
    {
        match self {
            Fault::NextWithoutPayload => String::from_str("no payload received from next message"),
            Fault::ErrorWithoutPayload => String::from_str("no payload received from error message"),
            Fault::Undecodable => String::from_str("a frame could not be read as a protocol message"),
        }
    }
}

/// How the client closes the connection.
#[derive(Clone, Copy, Debug, PartialEq, Eq, Structural)]
pub enum CloseKind {
    /// The server completed the operation.
    Normal,
    /// The server sent a message of a kind that a client does not expect while streaming.
    InvalidMessageType,
}

/// What the client does next.
#[derive(Debug)]
pub enum Action {
    /// Give up opening the subscription with this error.
    Fail(ProtocolError),
    /// Give up opening the subscription with the transport's own error for the frame.
    FailUndecodable,
    /// Hand the acknowledgement's payload to the client, then send the subscription.
    AcknowledgeThenSubscribe(Value),
    /// Send the subscription.
    Subscribe,
    /// Yield the payload of a `next` message as a result.
    Deliver(Value),
    /// Yield the payload of an `error` message as an error.
    DeliverError(Value),
    /// Ask the client for the payload of a pong and send the pong.
    AnswerPing(Option<Value>),
    /// Hand the payload of a pong to the client.
    NotePong(Option<Value>),
    /// Close the connection and end the stream.
    Close(CloseKind),
    /// Abort the stream: the server broke the protocol.
    Abort(Fault),
    /// End the stream.
    Finish,
}

/// The websocket close code for a way of closing.
pub open spec fn close_code(kind: CloseKind) -> u16 {
    match kind {
        CloseKind::Normal => 1000,
        CloseKind::InvalidMessageType => 4400,
    }
}

/// The reason sent with the close code.
pub open spec fn close_reason(kind: CloseKind) -> Seq<char> {
    match kind {
        CloseKind::Normal => "Normal Closure"@,
        CloseKind::InvalidMessageType => "message type invalid"@,
    }
}

impl CloseKind {
    /// The websocket close code.
    pub fn code(&self) -> (r: u16)
        ensures
            r == close_code(*self),
    {
        match self {
            CloseKind::Normal => 1000,
            CloseKind::InvalidMessageType => 4400,
        }
    }

    /// The reason sent with the close code.
    pub fn reason(&self) -> (r: String)
        ensures
            r@ == close_reason(*self),
    {
        match self {
            CloseKind::Normal => String::from_str("Normal Closure"),
            CloseKind::InvalidMessageType => String::from_str("message type invalid"),
        }
    }
}

/// What the server's first message decides.
pub open spec fn handshake_step(incoming: Incoming) -> (Phase, Action) {
    match incoming {
        Incoming::Ended => (Phase::Failed, Action::Fail(ProtocolError::ConnectionClosed)),
        Incoming::Undecodable => (Phase::Failed, Action::FailUndecodable),
        Incoming::Message(m) => if m.type_ != MessageType::ConnectionAck {
            (Phase::Failed, Action::Fail(ProtocolError::AckNotReceived))
        } else {
            match m.payload {
                Some(p) => (Phase::Streaming, Action::AcknowledgeThenSubscribe(p)),
                None => (Phase::Streaming, Action::Subscribe),
            }
        },
    }
}

/// What a message decides while results stream.
pub open spec fn streaming_step(incoming: Incoming) -> (Phase, Action) {
    match incoming {
        Incoming::Ended => (Phase::Closed, Action::Finish),
        Incoming::Undecodable => (Phase::Failed, Action::Abort(Fault::Undecodable)),
        Incoming::Message(m) => match m.type_ {
            MessageType::Next => match m.payload {
                Some(p) => (Phase::Streaming, Action::Deliver(p)),
                None => (Phase::Failed, Action::Abort(Fault::NextWithoutPayload)),
            },
            MessageType::Error => match m.payload {
                Some(p) => (Phase::Streaming, Action::DeliverError(p)),
                None => (Phase::Failed, Action::Abort(Fault::ErrorWithoutPayload)),
            },
            MessageType::Ping => (Phase::Streaming, Action::AnswerPing(m.payload)),
            MessageType::Pong => (Phase::Streaming, Action::NotePong(m.payload)),
            MessageType::Complete => (Phase::Closed, Action::Close(CloseKind::Normal)),
            _ => (Phase::Closed, Action::Close(CloseKind::InvalidMessageType)),
        },
    }
}

/// The protocol's rule: the next phase and what the client does, given the phase and
/// what arrived.
pub open spec fn spec_step(phase: Phase, incoming: Incoming) -> (Phase, Action) {
    match phase {
        Phase::AwaitingAck => handshake_step(incoming),
        Phase::Streaming => streaming_step(incoming),
        _ => (phase, Action::Finish),
    }
}

/// A client session of the protocol, from `connection_init` to the end of the stream.
pub struct Session {
    phase: Phase,
}

impl View for Session {
    type V = Phase;

    closed spec fn view(&self) -> Phase {
        self.phase
    }
}

impl Session {
    /// Opens a session: the returned message, `connection_init` with the client's payload,
    /// is to be sent first.
    pub fn start(init_payload: Option<Value>) -> (r: (Session, Message))
        ensures
            r.0@ == Phase::AwaitingAck,
            r.1.type_ == MessageType::ConnectionInit,
            r.1.id is None,
            r.1.payload == init_payload,
    {
        (Session { phase: Phase::AwaitingAck }, Message::connection_init(init_payload))
    }

    /// Where the session stands.
    pub fn phase(&self) -> (r: Phase)
        ensures
            r == self@,
    {
        self.phase
    }

    /// Takes what arrived and says what the client does next.
    pub fn step(&mut self, incoming: Incoming) -> (r: Action)
        ensures
            (final(self)@, r) == spec_step(old(self)@, incoming),
    {
        match self.phase {
            Phase::AwaitingAck => match incoming {
                Incoming::Ended => {
                    self.phase = Phase::Failed;
                    Action::Fail(ProtocolError::ConnectionClosed)
                },
                Incoming::Undecodable => {
                    self.phase = Phase::Failed;
                    Action::FailUndecodable
                },
                Incoming::Message(m) => {
                    if m.type_ != MessageType::ConnectionAck {
                        self.phase = Phase::Failed;
                        Action::Fail(ProtocolError::AckNotReceived)
                    } else {
                        self.phase = Phase::Streaming;
                        match m.payload {
                            Some(p) => Action::AcknowledgeThenSubscribe(p),
                            None => Action::Subscribe,
                        }
                    }
                },
            },
            Phase::Streaming => match incoming {
                Incoming::Ended => {
                    self.phase = Phase::Closed;
                    Action::Finish
                },
                Incoming::Undecodable => {
                    self.phase = Phase::Failed;
                    Action::Abort(Fault::Undecodable)
                },
                Incoming::Message(m) => match m.type_ {
                    MessageType::Next => match m.payload {
                        Some(p) => Action::Deliver(p),
                        None => {
                            self.phase = Phase::Failed;
                            Action::Abort(Fault::NextWithoutPayload)
                        },
                    },
                    MessageType::Error => match m.payload {
                        Some(p) => Action::DeliverError(p),
                        None => {
                            self.phase = Phase::Failed;
                            Action::Abort(Fault::ErrorWithoutPayload)
                        },
                    },
                    MessageType::Ping => Action::AnswerPing(m.payload),
                    MessageType::Pong => Action::NotePong(m.payload),
                    MessageType::Complete => {
                        self.phase = Phase::Closed;
                        Action::Close(CloseKind::Normal)
                    },
                    _ => {
                        self.phase = Phase::Closed;
                        Action::Close(CloseKind::InvalidMessageType)
                    },
                },
            },
            _ => Action::Finish,
        }
    }
}


/// The phase reached and the actions taken when the session, standing at `phase`,
/// takes `incomings` one after the other.
pub open spec fn run(phase: Phase, incomings: Seq<Incoming>) -> (Phase, Seq<Action>)
    decreases incomings.len(),
{
    if incomings.len() == 0 {
        (phase, Seq::<Action>::empty())
    } else {
        let (next, action) = spec_step(phase, incomings[0]);
        let (last, rest) = run(next, incomings.drop_first());
        (last, seq![action] + rest)
    }
}

/// The server acknowledged the connection with this message.
pub open spec fn is_ack(incoming: Incoming) -> bool {
    incoming matches Incoming::Message(m) && m.type_ == MessageType::ConnectionAck
}

/// The action sends the subscription.
pub open spec fn is_subscription(action: Action) -> bool {
    action is Subscribe || action is AcknowledgeThenSubscribe
}

/// The action hands something from the running operation to the client.
pub open spec fn is_delivery(action: Action) -> bool {
    action is Deliver || action is DeliverError || action is AnswerPing || action is NotePong
}

/// A message that keeps results streaming: a `next` or `error` with a payload,
/// a `ping` or a `pong`.
pub open spec fn is_ongoing(incoming: Incoming) -> bool {
    incoming matches Incoming::Message(m) && (m.type_ == MessageType::Ping || m.type_
        == MessageType::Pong || ((m.type_ == MessageType::Next || m.type_ == MessageType::Error)
        && m.payload is Some))
}

/// What the client does with a message that keeps results streaming.
pub open spec fn answer_to(incoming: Incoming) -> Action {
    match incoming {
        Incoming::Message(m) => if m.type_ == MessageType::Next {
            Action::Deliver(m.payload.unwrap())
        } else if m.type_ == MessageType::Error {
            Action::DeliverError(m.payload.unwrap())
        } else if m.type_ == MessageType::Ping {
            Action::AnswerPing(m.payload)
        } else {
            Action::NotePong(m.payload)
        },
        _ => Action::Finish,
    }
}

/// The server's `complete` message ends the operation normally: while results stream,
/// whatever its id and payload, the client closes the connection with the normal close
/// code 1000 and the reason "Normal Closure", and the stream is over.
pub proof fn lemma_complete_closes_normally(m: Message)
    requires
        m.type_ == MessageType::Complete,
    ensures
        spec_step(Phase::Streaming, Incoming::Message(m)) == (
            Phase::Closed,
            Action::Close(CloseKind::Normal),
        ),
        close_code(CloseKind::Normal) == 1000,
        close_reason(CloseKind::Normal) == "Normal Closure"@,
{
}

/// A message of a kind that only a client sends, or a second acknowledgement, while
/// results stream breaks the protocol: whatever its id and payload, the client closes
/// the connection with code 4400 and the reason "message type invalid".
pub proof fn lemma_client_only_types_close_as_invalid(m: Message)
    requires
        m.type_ == MessageType::ConnectionInit || m.type_ == MessageType::ConnectionAck
            || m.type_ == MessageType::Subscribe,
    ensures
        spec_step(Phase::Streaming, Incoming::Message(m)) == (
            Phase::Closed,
            Action::Close(CloseKind::InvalidMessageType),
        ),
        close_code(CloseKind::InvalidMessageType) == 4400,
        close_reason(CloseKind::InvalidMessageType) == "message type invalid"@,
{
}

/// The two ways of closing are told apart on the wire: their codes and reasons differ.
pub proof fn lemma_close_kinds_differ()
    ensures
        close_code(CloseKind::Normal) != close_code(CloseKind::InvalidMessageType),
        close_reason(CloseKind::Normal) != close_reason(CloseKind::InvalidMessageType),
{
    reveal_strlit("Normal Closure");
    reveal_strlit("message type invalid");
    assert(close_reason(CloseKind::Normal).len() != close_reason(CloseKind::InvalidMessageType).len());
}

/// The session does not look at the operation id: in every phase, two messages of the
/// same kind with the same payload lead to the same phase and the same action, whatever
/// their ids.
pub proof fn lemma_step_ignores_id(phase: Phase, m: Message, id: Option<String>)
    ensures
        spec_step(phase, Incoming::Message(Message { type_: m.type_, id: id, payload: m.payload }))
            == spec_step(phase, Incoming::Message(m)),
{
}

/// What each kind of message does while results stream, whatever its id: a `next` with a
/// payload delivers that payload, an `error` with a payload delivers it as an error, a
/// `ping` is answered with its payload and a `pong` noted, all keeping the stream open;
/// a `next` or `error` without payload aborts the stream and the session fails.
pub proof fn lemma_streaming_outcomes(m: Message)
    ensures
        ({
            let (phase, action) = spec_step(Phase::Streaming, Incoming::Message(m));
            &&& (m.type_ == MessageType::Next && m.payload is Some) ==> phase == Phase::Streaming
                && action == Action::Deliver(m.payload.unwrap())
            &&& (m.type_ == MessageType::Error && m.payload is Some) ==> phase == Phase::Streaming
                && action == Action::DeliverError(m.payload.unwrap())
            &&& m.type_ == MessageType::Ping ==> phase == Phase::Streaming && action
                == Action::AnswerPing(m.payload)
            &&& m.type_ == MessageType::Pong ==> phase == Phase::Streaming && action
                == Action::NotePong(m.payload)
            &&& (m.type_ == MessageType::Next && m.payload is None) ==> phase == Phase::Failed
                && action == Action::Abort(Fault::NextWithoutPayload)
            &&& (m.type_ == MessageType::Error && m.payload is None) ==> phase == Phase::Failed
                && action == Action::Abort(Fault::ErrorWithoutPayload)
        }),
{
}

/// The end of the connection ends the stream without closing it again, and a frame that
/// cannot be read while results stream aborts it.
pub proof fn lemma_streaming_end_and_unreadable()
    ensures
        spec_step(Phase::Streaming, Incoming::Ended) == (Phase::Closed, Action::Finish),
        spec_step(Phase::Streaming, Incoming::Undecodable) == (
            Phase::Failed,
            Action::Abort(Fault::Undecodable),
        ),
{
}

/// The handshake: the acknowledgement, whatever its id, moves the session to streaming
/// and sends the subscription, first handing the acknowledgement's payload to the client
/// when there is one; any other message fails with "connection ack not received"; the
/// end of the connection fails with "connection closed"; an unreadable frame fails with
/// the transport's own error.
pub proof fn lemma_handshake_outcomes(m: Message)
    ensures
        ({
            let (phase, action) = spec_step(Phase::AwaitingAck, Incoming::Message(m));
            &&& (m.type_ == MessageType::ConnectionAck && m.payload is Some) ==> phase
                == Phase::Streaming && action == Action::AcknowledgeThenSubscribe(
                m.payload.unwrap(),
            )
            &&& (m.type_ == MessageType::ConnectionAck && m.payload is None) ==> phase
                == Phase::Streaming && action == Action::Subscribe
            &&& m.type_ != MessageType::ConnectionAck ==> phase == Phase::Failed && action
                == Action::Fail(ProtocolError::AckNotReceived)
        }),
        spec_step(Phase::AwaitingAck, Incoming::Ended) == (
            Phase::Failed,
            Action::Fail(ProtocolError::ConnectionClosed),
        ),
        spec_step(Phase::AwaitingAck, Incoming::Undecodable) == (
            Phase::Failed,
            Action::FailUndecodable,
        ),
{
}

/// A session takes one action for each thing that arrives.
pub proof fn lemma_one_action_each(phase: Phase, incomings: Seq<Incoming>)
    ensures
        run(phase, incomings).1.len() == incomings.len(),
    decreases incomings.len(),
{
    if incomings.len() > 0 {
        lemma_one_action_each(spec_step(phase, incomings[0]).0, incomings.drop_first());
    }
}

/// Once the stream has ended or the session broke off, whatever arrives only ends
/// the stream again: the phase stays and every action is `Finish`.
pub proof fn lemma_ended_session_stays_ended(phase: Phase, incomings: Seq<Incoming>)
    requires
        phase == Phase::Closed || phase == Phase::Failed,
    ensures
        run(phase, incomings) == (phase, Seq::new(incomings.len(), |i: int| Action::Finish)),
    decreases incomings.len(),
{
    if incomings.len() > 0 {
        lemma_ended_session_stays_ended(phase, incomings.drop_first());
        assert(run(phase, incomings).1 =~= Seq::new(incomings.len(), |i: int| Action::Finish));
    }
}

/// While the server sends results, errors, pings and pongs, the session keeps streaming
/// and answers each of them in the order they came: every `next` payload is delivered as a
/// result, every `error` payload as an error, every ping is answered and every pong noted.
pub proof fn lemma_streaming_answers_each_message(incomings: Seq<Incoming>)
    requires
        forall|i: int| 0 <= i < incomings.len() ==> is_ongoing(#[trigger] incomings[i]),
    ensures
        run(Phase::Streaming, incomings) == (
            Phase::Streaming,
            Seq::new(incomings.len(), |i: int| answer_to(incomings[i])),
        ),
    decreases incomings.len(),
{
    if incomings.len() > 0 {
        let rest = incomings.drop_first();
        assert forall|i: int| 0 <= i < rest.len() implies is_ongoing(#[trigger] rest[i]) by {
            assert(rest[i] == incomings[i + 1]);
        }
        lemma_streaming_answers_each_message(rest);
        assert(is_ongoing(incomings[0]));
        assert(run(Phase::Streaming, incomings).1 =~= Seq::new(
            incomings.len(),
            |i: int| answer_to(incomings[i]),
        ));
    }
}

/// Past the handshake the session never awaits an acknowledgement again and never
/// sends the subscription.
proof fn lemma_no_subscription_after_handshake(phase: Phase, incomings: Seq<Incoming>)
    requires
        phase != Phase::AwaitingAck,
    ensures
        run(phase, incomings).0 != Phase::AwaitingAck,
        forall|i: int|
            0 <= i < run(phase, incomings).1.len() ==> !is_subscription(
                #[trigger] run(phase, incomings).1[i],
            ),
    decreases incomings.len(),
{
    if incomings.len() > 0 {
        let next = spec_step(phase, incomings[0]).0;
        lemma_no_subscription_after_handshake(next, incomings.drop_first());
        let actions = run(phase, incomings).1;
        let rest = run(next, incomings.drop_first()).1;
        assert forall|i: int| 0 <= i < actions.len() implies !is_subscription(
            #[trigger] actions[i],
        ) by {
            if i > 0 {
                assert(actions[i] == rest[i - 1]);
            }
        }
    }
}

/// From `connection_init` on, the session sends the subscription at most once: in answer
/// to the first message, and exactly when that message is the server's acknowledgement.
pub proof fn lemma_subscribes_at_most_once(incomings: Seq<Incoming>)
    ensures
        forall|i: int|
            1 <= i < run(Phase::AwaitingAck, incomings).1.len() ==> !is_subscription(
                #[trigger] run(Phase::AwaitingAck, incomings).1[i],
            ),
        incomings.len() > 0 ==> (is_subscription(run(Phase::AwaitingAck, incomings).1[0])
            <==> is_ack(incomings[0])),
{
    if incomings.len() > 0 {
        let next = spec_step(Phase::AwaitingAck, incomings[0]).0;
        lemma_no_subscription_after_handshake(next, incomings.drop_first());
        let actions = run(Phase::AwaitingAck, incomings).1;
        let rest = run(next, incomings.drop_first()).1;
        assert forall|i: int| 1 <= i < actions.len() implies !is_subscription(
            #[trigger] actions[i],
        ) by {
            assert(actions[i] == rest[i - 1]);
        }
    }
}

/// Nothing of the operation reaches the client before the server acknowledged the
/// connection: no result, error, ping or pong is handed over in answer to the first
/// message, nor at all when the first message is not the acknowledgement.
pub proof fn lemma_nothing_delivered_before_ack(incomings: Seq<Incoming>)
    ensures
        forall|i: int|
            0 <= i < run(Phase::AwaitingAck, incomings).1.len() && is_delivery(
                #[trigger] run(Phase::AwaitingAck, incomings).1[i],
            ) ==> i >= 1 && is_ack(incomings[0]),
{
    if incomings.len() > 0 {
        let next = spec_step(Phase::AwaitingAck, incomings[0]).0;
        let actions = run(Phase::AwaitingAck, incomings).1;
        let rest = run(next, incomings.drop_first()).1;
        if !is_ack(incomings[0]) {
            lemma_ended_session_stays_ended(next, incomings.drop_first());
            assert forall|i: int| 0 <= i < actions.len() implies !is_delivery(
                #[trigger] actions[i],
            ) by {
                if i > 0 {
                    assert(actions[i] == rest[i - 1]);
                }
            }
        }
    }
}

} // verus!
