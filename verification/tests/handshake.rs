use av_pipeline::handshake::{
    endpoint, parse_name, ControlEvent, ControlMessage, Handshake, HandshakeAction, HandshakeError,
    HandshakeState, Role,
};

fn name_of(action: HandshakeAction) -> (Role, String) {
    match action {
        HandshakeAction::Attach(session) => (session.role, session.name),
        other => panic!("expected a name, got {:?}", other),
    }
}

fn exit_of(action: HandshakeAction) -> HandshakeError {
    match action {
        HandshakeAction::Exit(error) => error,
        other => panic!("expected an exit, got {:?}", other),
    }
}

fn binary(payload: &[u8]) -> ControlEvent {
    ControlEvent::Message(ControlMessage::Binary(payload.to_vec()))
}

#[test]
fn endpoints_name_role_and_port() {
    assert_eq!(endpoint(Role::Producer, 0), "ws://127.0.0.1:8080/input_0");
    assert_eq!(endpoint(Role::Producer, 7), "ws://127.0.0.1:8080/input_7");
    assert_eq!(endpoint(Role::Producer, 54321), "ws://127.0.0.1:8080/input_54321");
    assert_eq!(endpoint(Role::Consumer, 60000), "ws://127.0.0.1:8080/output_60000");
    assert_eq!(endpoint(Role::Consumer, 65535), "ws://127.0.0.1:8080/output_65535");
    assert_eq!(endpoint(Role::Consumer, 1009), "ws://127.0.0.1:8080/output_1009");
    for port in [10u16, 99, 100, 101, 9999, 10000, 40960] {
        assert_eq!(endpoint(Role::Producer, port), format!("ws://127.0.0.1:8080/input_{}", port));
    }
}

#[test]
fn the_first_binary_message_names_the_region() {
    let mut handshake = Handshake::new(Role::Producer);
    assert_eq!(handshake.state(), HandshakeState::AwaitingName);
    assert_eq!(handshake.role(), Role::Producer);
    let (role, name) = name_of(handshake.step(binary(b"triple_buffer_7")));
    assert_eq!(role, Role::Producer);
    assert_eq!(name, "triple_buffer_7");
    assert_eq!(handshake.state(), HandshakeState::Attached);
}

#[test]
fn names_may_be_any_utf8_without_zero_bytes() {
    assert_eq!(parse_name("région-帧-🎞".as_bytes().to_vec()), Ok("région-帧-🎞".to_string()));
    assert_eq!(parse_name(Vec::new()), Ok(String::new()));
    assert_eq!(parse_name(vec![0xff, 0xfe]), Err(HandshakeError::NotUtf8));
    assert_eq!(parse_name(vec![b'a', 0xc3]), Err(HandshakeError::NotUtf8));
    assert_eq!(parse_name(vec![0xed, 0xa0, 0x80]), Err(HandshakeError::NotUtf8));
    assert_eq!(parse_name(vec![0xc0, 0x80]), Err(HandshakeError::NotUtf8));
    assert_eq!(parse_name(vec![b'a', 0, b'b']), Err(HandshakeError::InvalidName));
    assert_eq!(parse_name(vec![0, 0xff]), Err(HandshakeError::NotUtf8));
}

#[test]
fn anything_but_a_binary_name_first_is_fatal() {
    let cases = vec![
        (ControlEvent::Refused, HandshakeError::ConnectionRefused),
        (ControlEvent::Closed, HandshakeError::NoMessage),
        (ControlEvent::Message(ControlMessage::Close), HandshakeError::NoMessage),
        (ControlEvent::Message(ControlMessage::Text), HandshakeError::NotBinary),
        (ControlEvent::Message(ControlMessage::Ping), HandshakeError::NotBinary),
        (ControlEvent::Message(ControlMessage::Pong), HandshakeError::NotBinary),
        (ControlEvent::Message(ControlMessage::Frame), HandshakeError::NotBinary),
        (binary(&[0x80]), HandshakeError::NotUtf8),
        (binary(&[b'x', 0]), HandshakeError::InvalidName),
    ];
    for (event, error) in cases {
        let mut handshake = Handshake::new(Role::Consumer);
        assert_eq!(exit_of(handshake.step(event)), error);
        assert_eq!(handshake.state(), HandshakeState::Failed(error));
        // Failed for good, whatever comes.
        assert_eq!(exit_of(handshake.step(binary(b"late"))), error);
        assert_eq!(handshake.state(), HandshakeState::Failed(error));
    }
}

#[test]
fn after_the_name_the_connection_only_shows_liveness() {
    let mut handshake = Handshake::new(Role::Consumer);
    let (role, name) = name_of(handshake.step(binary(b"region")));
    assert_eq!((role, name.as_str()), (Role::Consumer, "region"));
    for _ in 0..3 {
        assert!(matches!(handshake.step(ControlEvent::Message(ControlMessage::Ping)), HandshakeAction::Listen));
        assert!(matches!(handshake.step(ControlEvent::Message(ControlMessage::Pong)), HandshakeAction::Listen));
        assert!(matches!(handshake.step(ControlEvent::Message(ControlMessage::Frame)), HandshakeAction::Listen));
    }
    assert_eq!(handshake.state(), HandshakeState::Attached);
    assert!(matches!(handshake.step(ControlEvent::Closed), HandshakeAction::StopListening));
    assert_eq!(handshake.state(), HandshakeState::Disconnected);
    assert!(matches!(handshake.step(binary(b"other")), HandshakeAction::StopListening));
    assert_eq!(handshake.state(), HandshakeState::Disconnected);
}

#[test]
fn a_second_data_message_is_fatal() {
    let mut handshake = Handshake::new(Role::Producer);
    name_of(handshake.step(binary(b"region")));
    assert_eq!(exit_of(handshake.step(binary(b"region"))), HandshakeError::SecondMessage);
    let mut handshake = Handshake::new(Role::Producer);
    name_of(handshake.step(binary(b"region")));
    assert_eq!(
        exit_of(handshake.step(ControlEvent::Message(ControlMessage::Text))),
        HandshakeError::SecondMessage
    );
    assert_eq!(handshake.state(), HandshakeState::Failed(HandshakeError::SecondMessage));
}
