//! The handshake with the orchestrator: where a process registers, and how
//! it reads the one message that names the shared region to attach to.

use vstd::prelude::*;
use vstd::string::StringExecFns;
use vstd::utf8::{decode_utf8, valid_utf8};

verus! {

/// What a process does with its shared region.
#[derive(Clone, Copy, Debug, PartialEq, Eq, Structural)]
pub enum Role {
    /// It writes frames.
    Producer,
    /// It reads frames.
    Consumer,
}

/// The identity of a process once the handshake is complete.
#[derive(Debug)]
pub struct StreamSession {
    pub role: Role,
    /// The name of the shared region that was assigned to the process.
    pub name: String,
}

/// A message on the control connection.
#[derive(Debug)]
pub enum ControlMessage {
    /// A text message.
    Text,
    /// A binary message with its payload.
    Binary(Vec<u8>),
    /// A ping.
    Ping,
    /// A pong.
    Pong,
    /// The peer closes the connection.
    Close,
    /// A raw frame.
    Frame,
}

/// What happened on the control connection.
#[derive(Debug)]
pub enum ControlEvent {
    /// The connection could not be made.
    Refused,
    /// A message arrived.
    Message(ControlMessage),
    /// The connection ended or failed.
    Closed,
}

/// Why a handshake failed. Each of these ends the process.
#[derive(Clone, Copy, Debug, PartialEq, Eq, Structural)]
pub enum HandshakeError {
    /// The orchestrator refused the connection.
    ConnectionRefused,
    /// The connection ended before the name arrived.
    NoMessage,
    /// The first message was not a binary message.
    NotBinary,
    /// The payload of the first message was not UTF-8.
    NotUtf8,
    /// The payload holds a zero byte, which no name of a region has.
    InvalidName,
    /// A second data message arrived.
    SecondMessage,
}

/// How far the handshake is.
#[derive(Clone, Copy, Debug, PartialEq, Eq, Structural)]
pub enum HandshakeState {
    /// The name has not arrived.
    AwaitingName,
    /// The name has arrived; the connection only shows that the
    /// orchestrator lives.
    Attached,
    /// The connection has ended after the name arrived.
    Disconnected,
    /// The handshake failed.
    Failed(HandshakeError),
}

/// What the process does next.
#[derive(Debug)]
pub enum HandshakeAction {
    /// Go on listening.
    Listen,
    /// Attach to the shared region of this session, and go on listening.
    Attach(StreamSession),
    /// Stop listening; the pipeline goes on.
    StopListening,
    /// Exit.
    Exit(HandshakeError),
}

/// An action with its name as a sequence of characters.
pub enum HandshakeActionView {
    Listen,
    Attach { role: Role, name: Seq<char> },
    StopListening,
    Exit(HandshakeError),
}

impl View for HandshakeAction {
    type V = HandshakeActionView;

    open spec fn view(&self) -> HandshakeActionView {
        match *self {
            HandshakeAction::Listen => HandshakeActionView::Listen,
            HandshakeAction::Attach(session) => HandshakeActionView::Attach {
                role: session.role,
                name: session.name@,
            },
            HandshakeAction::StopListening => HandshakeActionView::StopListening,
            HandshakeAction::Exit(error) => HandshakeActionView::Exit(error),
        }
    }
}

/// A message with its payload as a sequence of bytes.
pub enum ControlMessageView {
    Text,
    Binary(Seq<u8>),
    Ping,
    Pong,
    Close,
    Frame,
}

impl View for ControlMessage {
    type V = ControlMessageView;

    open spec fn view(&self) -> ControlMessageView {
        match *self {
            ControlMessage::Text => ControlMessageView::Text,
            ControlMessage::Binary(payload) => ControlMessageView::Binary(payload@),
            ControlMessage::Ping => ControlMessageView::Ping,
            ControlMessage::Pong => ControlMessageView::Pong,
            ControlMessage::Close => ControlMessageView::Close,
            ControlMessage::Frame => ControlMessageView::Frame,
        }
    }
}

/// An event with its payload as a sequence of bytes.
pub enum ControlEventView {
    Refused,
    Message(ControlMessageView),
    Closed,
}

impl View for ControlEvent {
    type V = ControlEventView;

    open spec fn view(&self) -> ControlEventView {
        match *self {
            ControlEvent::Refused => ControlEventView::Refused,
            ControlEvent::Message(message) => ControlEventView::Message(message@),
            ControlEvent::Closed => ControlEventView::Closed,
        }
    }
}

/// The name that a payload spells: it is UTF-8 and holds no zero byte.
pub open spec fn spec_parse_name(payload: Seq<u8>) -> Result<Seq<char>, HandshakeError> {
    if !valid_utf8(payload) {
        Err(HandshakeError::NotUtf8)
    } else if payload.contains(0u8) {
        Err(HandshakeError::InvalidName)
    } else {
        Ok(decode_utf8(payload))
    }
}

/// What the first message gives: the name, if it is a binary message whose
/// payload spells one.
pub open spec fn spec_first_message(message: ControlMessageView) -> Result<
    Seq<char>,
    HandshakeError,
> {
    match message {
        ControlMessageView::Binary(payload) => spec_parse_name(payload),
        ControlMessageView::Close => Err(HandshakeError::NoMessage),
        _ => Err(HandshakeError::NotBinary),
    }
}

/// One step of the handshake. Before the name has arrived, the first
/// message must bring it, and anything else is fatal. Afterwards pings,
/// pongs and raw frames show that the orchestrator lives, a second data
/// message is fatal, and the end of the connection only ends listening.
/// A failed handshake stays failed.
pub open spec fn spec_step(state: HandshakeState, role: Role, event: ControlEventView) -> (
    HandshakeState,
    HandshakeActionView,
) {
    match state {
        HandshakeState::AwaitingName => match event {
            ControlEventView::Refused => fatal(HandshakeError::ConnectionRefused),
            ControlEventView::Closed => fatal(HandshakeError::NoMessage),
            ControlEventView::Message(message) => match spec_first_message(message) {
                Ok(name) => (HandshakeState::Attached, HandshakeActionView::Attach { role, name }),
                Err(error) => fatal(error),
            },
        },
        HandshakeState::Attached => match event {
            ControlEventView::Message(ControlMessageView::Ping)
            | ControlEventView::Message(ControlMessageView::Pong)
            | ControlEventView::Message(ControlMessageView::Frame) => (
                HandshakeState::Attached,
                HandshakeActionView::Listen,
            ),
            ControlEventView::Message(ControlMessageView::Text)
            | ControlEventView::Message(ControlMessageView::Binary(_)) => fatal(
                HandshakeError::SecondMessage,
            ),
            ControlEventView::Message(ControlMessageView::Close)
            | ControlEventView::Closed
            | ControlEventView::Refused => (
                HandshakeState::Disconnected,
                HandshakeActionView::StopListening,
            ),
        },
        HandshakeState::Disconnected => (
            HandshakeState::Disconnected,
            HandshakeActionView::StopListening,
        ),
        HandshakeState::Failed(error) => fatal(error),
    }
}

/// The handshake fails with `error`.
pub open spec fn fatal(error: HandshakeError) -> (HandshakeState, HandshakeActionView) {
    (HandshakeState::Failed(error), HandshakeActionView::Exit(error))
}

/// The decimal digits of a number.
pub open spec fn spec_decimal(n: nat) -> Seq<char>
    decreases n,
{
    if n < 10 {
        seq![spec_digit(n)]
    } else {
        spec_decimal(n / 10).push(spec_digit(n % 10))
    }
}

/// The character of a digit.
pub open spec fn spec_digit(d: nat) -> char {
    if d == 0 {
        '0'
    } else if d == 1 {
        '1'
    } else if d == 2 {
        '2'
    } else if d == 3 {
        '3'
    } else if d == 4 {
        '4'
    } else if d == 5 {
        '5'
    } else if d == 6 {
        '6'
    } else if d == 7 {
        '7'
    } else if d == 8 {
        '8'
    } else {
        '9'
    }
}

/// The address of the orchestrator, up to the name under which a process
/// registers.
pub open spec fn spec_orchestrator() -> Seq<char> {
    "ws://127.0.0.1:8080/"@
}

/// The prefix of the name under which a process of a role registers.
pub open spec fn spec_role_prefix(role: Role) -> Seq<char> {
    match role {
        Role::Producer => "input_"@,
        Role::Consumer => "output_"@,
    }
}

/// Where a process of `role` that listens on `port` registers: the
/// orchestrator's address, the prefix of the role, and the port in decimal.
pub open spec fn spec_endpoint(role: Role, port: u16) -> Seq<char> {
    spec_orchestrator() + spec_role_prefix(role) + spec_decimal(port as nat)
}

/// `String::from_utf8` of the standard library: the string that the bytes
/// encode if they are valid UTF-8, and nothing if they are not.
#[verifier::external_body]
fn string_from_utf8(bytes: Vec<u8>) -> (decoded: Option<String>)
    ensures
        decoded.is_some() <==> valid_utf8(bytes@),
        decoded matches Some(text) ==> text@ == decode_utf8(bytes@),
{
    String::from_utf8(bytes).ok()
}

/// Whether a zero byte occurs in `bytes`.
fn has_zero_byte(bytes: &Vec<u8>) -> (found: bool)
    ensures
        found == bytes@.contains(0u8),
{
    let mut i: usize = 0;
    while i < bytes.len()
        invariant
            i <= bytes@.len(),
            forall|k: int| 0 <= k < i ==> bytes@[k] != 0u8,
        decreases bytes@.len() - i,
    {
        if bytes[i] == 0 {
            return true;
        }
        i += 1;
    }
    false
}

/// The name that `payload` spells, or why it spells none.
pub fn parse_name(payload: Vec<u8>) -> (result: Result<String, HandshakeError>)
    ensures
        match spec_parse_name(payload@) {
            Ok(name) => result matches Ok(text) && text@ == name,
            Err(error) => result matches Err(e) && e == error,
        },
{
    let zero: bool = has_zero_byte(&payload);
    match string_from_utf8(payload) {
        None => Err(HandshakeError::NotUtf8),
        Some(text) => {
            if zero {
                Err(HandshakeError::InvalidName)
            } else {
                Ok(text)
            }
        },
    }
}

fn digit_str(d: u16) -> (text: &'static str)
    requires
        d < 10,
    ensures
        text@ == seq![spec_digit(d as nat)],
{
    proof {
        reveal_strlit("0");
        reveal_strlit("1");
        reveal_strlit("2");
        reveal_strlit("3");
        reveal_strlit("4");
        reveal_strlit("5");
        reveal_strlit("6");
        reveal_strlit("7");
        reveal_strlit("8");
        reveal_strlit("9");
    }
    let text = if d == 0 {
        "0"
    } else if d == 1 {
        "1"
    } else if d == 2 {
        "2"
    } else if d == 3 {
        "3"
    } else if d == 4 {
        "4"
    } else if d == 5 {
        "5"
    } else if d == 6 {
        "6"
    } else if d == 7 {
        "7"
    } else if d == 8 {
        "8"
    } else {
        "9"
    };
    assert(text@ =~= seq![spec_digit(d as nat)]);
    text
}

fn append_decimal(text: &mut String, n: u16)
    ensures
        final(text)@ == old(text)@ + spec_decimal(n as nat),
    decreases n,
{
    if n < 10 {
        text.append(digit_str(n));
    } else {
        append_decimal(text, n / 10);
        text.append(digit_str(n % 10));
        assert(text@ =~= old(text)@ + spec_decimal(n as nat));
    }
}

/// Where a process of `role` that listens on `port` registers.
pub fn endpoint(role: Role, port: u16) -> (url: String)
    ensures
        url@ == spec_endpoint(role, port),
{
    let mut url = String::from_str("ws://127.0.0.1:8080/");
    match role {
        Role::Producer => url.append("input_"),
        Role::Consumer => url.append("output_"),
    }
    append_decimal(&mut url, port);
    url
}

/// The handshake of one process.
#[derive(Debug)]
pub struct Handshake {
    role: Role,
    state: HandshakeState,
}

/// The abstract state of a handshake.
pub struct HandshakeView {
    pub role: Role,
    pub state: HandshakeState,
}

impl View for Handshake {
    type V = HandshakeView;

    closed spec fn view(&self) -> HandshakeView {
        HandshakeView { role: self.role, state: self.state }
    }
}

impl Handshake {
    /// The handshake of a process of `role`, before anything arrived.
    pub fn new(role: Role) -> (handshake: Handshake)
        ensures
            handshake@ == (HandshakeView { role, state: HandshakeState::AwaitingName }),
    {
        Handshake { role, state: HandshakeState::AwaitingName }
    }

    /// How far the handshake is.
    pub fn state(&self) -> (state: HandshakeState)
        ensures
            state == self@.state,
    {
        self.state
    }

    /// The role of the process.
    pub fn role(&self) -> (role: Role)
        ensures
            role == self@.role,
    {
        self.role
    }

    fn fail(&mut self, error: HandshakeError) -> (action: HandshakeAction)
        ensures
            final(self)@.role == old(self)@.role,
            (final(self)@.state, action@) == fatal(error),
    {
        self.state = HandshakeState::Failed(error);
        HandshakeAction::Exit(error)
    }

    /// Takes one step: reads what happened on the control connection and
    /// says what to do next.
    pub fn step(&mut self, event: ControlEvent) -> (action: HandshakeAction)
        ensures
            final(self)@.role == old(self)@.role,
            (final(self)@.state, action@) == spec_step(
                old(self)@.state,
                old(self)@.role,
                event@,
            ),
    {
        match self.state {
            HandshakeState::AwaitingName => match event {
                ControlEvent::Refused => self.fail(HandshakeError::ConnectionRefused),
                ControlEvent::Closed => self.fail(HandshakeError::NoMessage),
                ControlEvent::Message(ControlMessage::Binary(payload)) => {
                    match parse_name(payload) {
                        Ok(name) => {
                            self.state = HandshakeState::Attached;
                            HandshakeAction::Attach(StreamSession { role: self.role, name })
                        },
                        Err(error) => self.fail(error),
                    }
                },
                ControlEvent::Message(ControlMessage::Close) => self.fail(
                    HandshakeError::NoMessage,
                ),
                ControlEvent::Message(_) => self.fail(HandshakeError::NotBinary),
            },
            HandshakeState::Attached => match event {
                ControlEvent::Message(ControlMessage::Ping)
                | ControlEvent::Message(ControlMessage::Pong)
                | ControlEvent::Message(ControlMessage::Frame) => HandshakeAction::Listen,
                ControlEvent::Message(ControlMessage::Text)
                | ControlEvent::Message(ControlMessage::Binary(_)) => self.fail(
                    HandshakeError::SecondMessage,
                ),
                _ => {
                    self.state = HandshakeState::Disconnected;
                    HandshakeAction::StopListening
                },
            },
            HandshakeState::Disconnected => HandshakeAction::StopListening,
            HandshakeState::Failed(error) => self.fail(error),
        }
    }
}

/// A handshake hands out a name at most once, and only for a first message
/// that is binary, valid UTF-8 and free of zero bytes; once it has failed
/// it only says to exit.
pub proof fn lemma_one_name_at_most(state: HandshakeState, role: Role, event: ControlEventView)
    ensures
        spec_step(state, role, event).1 is Attach <==> (state is AwaitingName && (
        event matches ControlEventView::Message(ControlMessageView::Binary(payload)) && valid_utf8(
            payload,
        ) && !payload.contains(0u8))),
        spec_step(state, role, event).1 is Attach ==> spec_step(state, role, event).0 is Attached,
        !(state is AwaitingName) ==> !(spec_step(state, role, event).0 is AwaitingName),
        state matches HandshakeState::Failed(error) ==> spec_step(state, role, event) == fatal(
            error,
        ),
{
}

} // verus!
