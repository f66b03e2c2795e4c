//! What a WebSocket decides, one step at a time.

use bytes::{Bytes, BytesMut};
use ratchet_core::{
    extension_encode, Cause, CloseCode, CloseReason, Coding, ControlCode, DataCode, Error,
    ErrorKind, Extension, ExtensionEncoder, Frame, FrameHeader, Framing, HeaderFlags, Item, Message,
    MessageType, NoExt, OpCode, PayloadType, ProtocolError, ReadAction, ReadEvent, Reply, Role,
    RsvBits, SplitSocket, WebSocket, WebSocketConfig, Written, CONTROL_MAX_SIZE,
};

fn socket(role: Role) -> WebSocket<u32, NoExt> {
    WebSocket::from_upgraded(
        WebSocketConfig { max_message_size: 99 },
        7,
        NoExt,
        BytesMut::from("early"),
        role,
    )
}

fn closed() -> Error {
    Error { kind: ErrorKind::Close, cause: Cause::CloseError }
}

fn overflow() -> Error {
    Error {
        kind: ErrorKind::Protocol,
        cause: Cause::ProtocolError(ProtocolError::FrameOverflow),
    }
}

fn failure(kind: ErrorKind) -> Error {
    Error { kind, cause: Cause::Description("it broke".to_string()) }
}

fn frame<P>(op_code: OpCode, fin: bool, payload: P, coding: Coding) -> Frame<P> {
    Frame { op_code, flags: HeaderFlags { fin }, payload, coding }
}

const TEXT: OpCode = OpCode::DataCode(DataCode::Text);
const BINARY: OpCode = OpCode::DataCode(DataCode::Binary);
const CONTINUATION: OpCode = OpCode::DataCode(DataCode::Continuation);
const PING: OpCode = OpCode::ControlCode(ControlCode::Ping);
const PONG: OpCode = OpCode::ControlCode(ControlCode::Pong);
const CLOSE: OpCode = OpCode::ControlCode(ControlCode::Close);

#[test]
fn starts_open_with_what_it_was_given() {
    for role in [Role::Client, Role::Server] {
        let mut socket = socket(role);
        assert_eq!(socket.role(), role);
        assert!(!socket.is_closed());
        assert!(socket.control_buffer().is_empty());
        let ext_bits = RsvBits { rsv1: false, rsv2: false, rsv3: false };
        assert_eq!(socket.framing(), Framing { role, max_message_size: 99, ext_bits });
        let (stream, read_buffer, extension) = socket.connection_mut();
        assert_eq!(*stream, 7);
        assert_eq!(&read_buffer[..], b"early");
        assert_eq!(*extension, NoExt);
    }
}

#[test]
fn control_max_size_is_125() {
    assert_eq!(CONTROL_MAX_SIZE, 125);
}

#[test]
fn each_payload_type_has_its_frame() {
    let mut socket = socket(Role::Client);
    assert_eq!(socket.write_text("hé"), Ok(frame(TEXT, true, "hé".as_bytes(), Coding::Extension)));
    assert_eq!(
        socket.write_binary(&[1, 2]),
        Ok(frame(BINARY, true, &[1u8, 2][..], Coding::Extension))
    );
    assert_eq!(
        socket.write_ping(&[3, 4]),
        Ok(frame(PING, true, &[3u8, 4][..], Coding::Extension))
    );
    assert_eq!(socket.write_pong(&[5]), Ok(frame(PONG, true, &[5u8][..], Coding::Extension)));
    assert!(!socket.is_closed());
}

#[test]
fn last_ping_is_remembered_until_a_pong() {
    let mut socket = socket(Role::Client);
    socket.write_ping(b"one").unwrap();
    assert_eq!(&socket.control_buffer()[..], b"one");
    socket.write_ping(b"three").unwrap();
    assert_eq!(&socket.control_buffer()[..], b"three");
    socket.write_pong(b"pong").unwrap();
    socket.write_binary(b"data").unwrap();
    assert_eq!(&socket.control_buffer()[..], b"three");

    let action = socket.read(ReadEvent::Received(Item::Pong(BytesMut::from("other"))));
    assert_eq!(action, ReadAction::Return(Ok(Message::Pong(Bytes::from("other")))));
    assert!(socket.control_buffer().is_empty());
    let action = socket.read(ReadEvent::Received(Item::Pong(BytesMut::from("again"))));
    assert_eq!(action, ReadAction::Return(Ok(Message::Pong(Bytes::from("again")))));
    assert!(!socket.is_closed());
}

#[test]
fn control_frames_are_bounded() {
    let fits = [13; 125];
    let too_long = [13; 126];
    for payload_type in [PayloadType::Ping, PayloadType::Pong] {
        let mut socket = socket(Role::Client);
        socket.write_ping(b"before").unwrap();
        assert_eq!(socket.write(&too_long, payload_type), Err(overflow()));
        assert_eq!(&socket.control_buffer()[..], b"before");
        assert!(!socket.is_closed());
        assert!(socket.write(&fits, payload_type).is_ok());
    }
    let mut socket = socket(Role::Client);
    assert!(socket.write(&too_long, PayloadType::Text).is_ok());
    assert!(socket.write(&too_long, PayloadType::Binary).is_ok());
}

#[test]
fn closed_socket_refuses() {
    let mut socket = socket(Role::Client);
    socket.close(None);
    assert_eq!(socket.read(ReadEvent::Start), ReadAction::Return(Err(closed())));
    assert_eq!(socket.write_text("a"), Err(closed()));
    assert_eq!(socket.write_binary(b"a"), Err(closed()));
    assert_eq!(socket.write_ping(b"a"), Err(closed()));
    assert_eq!(socket.write_pong(b"a"), Err(closed()));
    assert_eq!(socket.write_ping(&[0; 126]), Err(closed()));
    assert_eq!(socket.write_fragmented(b"abc", MessageType::Text, 1), Err(closed()));
    assert_eq!(socket.write_fragmented(b"abc", MessageType::Text, 0), Err(closed()));
    assert!(socket.control_buffer().is_empty());
    assert!(socket.is_closed());
    assert_eq!(socket.split().unwrap_err(), closed());
}

#[test]
fn open_socket_receives() {
    let mut socket = socket(Role::Server);
    assert_eq!(socket.read(ReadEvent::Start), ReadAction::Receive);
    let action = socket.read(ReadEvent::Received(Item::Text));
    assert_eq!(action, ReadAction::Return(Ok(Message::Text)));
    let action = socket.read(ReadEvent::Received(Item::Binary));
    assert_eq!(action, ReadAction::Return(Ok(Message::Binary)));
    assert!(!socket.is_closed());
}

#[test]
fn ping_is_answered_past_the_extension() {
    let mut socket = socket(Role::Server);
    let action = socket.read(ReadEvent::Received(Item::Ping(BytesMut::from("hello"))));
    assert_eq!(
        action,
        ReadAction::Reply {
            reply: Reply::Frame(frame(PONG, true, BytesMut::from("hello"), Coding::Plain)),
            result: Ok(Message::Ping(Bytes::from("hello"))),
        }
    );
    let result = Ok(Message::Ping(Bytes::from("hello")));
    let action = socket.read(ReadEvent::Replied { result, outcome: Ok(()) });
    assert_eq!(action, ReadAction::Return(Ok(Message::Ping(Bytes::from("hello")))));
    assert!(!socket.is_closed());
}

#[test]
fn failed_reply_is_the_result() {
    let mut socket = socket(Role::Server);
    let result = Ok(Message::Ping(Bytes::from("hello")));
    let outcome = Err(failure(ErrorKind::IO));
    let action = socket.read(ReadEvent::Replied { result, outcome });
    assert_eq!(action, ReadAction::Return(Err(failure(ErrorKind::IO))));
    assert!(!socket.is_closed());

    let result = Err(failure(ErrorKind::Protocol));
    let outcome = Err(failure(ErrorKind::IO));
    let action = socket.read(ReadEvent::Replied { result, outcome });
    assert_eq!(action, ReadAction::Return(Err(failure(ErrorKind::IO))));
}

#[test]
fn close_with_reason_is_echoed() {
    let reason = || CloseReason::new(CloseCode::Other(4000), Some("enough".to_string()));
    let mut socket = socket(Role::Server);
    let action = socket.read(ReadEvent::Received(Item::Close(Some(reason()))));
    assert_eq!(
        action,
        ReadAction::Reply {
            reply: Reply::Close(reason()),
            result: Ok(Message::Close(Some(reason()))),
        }
    );
    assert!(socket.is_closed());
}

#[test]
fn close_without_reason_is_answered_with_an_empty_close() {
    let mut socket = socket(Role::Server);
    let action = socket.read(ReadEvent::Received(Item::Close(None)));
    assert_eq!(
        action,
        ReadAction::Reply {
            reply: Reply::Frame(frame(CLOSE, true, BytesMut::new(), Coding::Plain)),
            result: Ok(Message::Close(None)),
        }
    );
    assert!(socket.is_closed());
}

#[test]
fn failure_is_told_to_the_peer() {
    for kind in [ErrorKind::Protocol, ErrorKind::Extension, ErrorKind::Close, ErrorKind::Other] {
        let mut socket = socket(Role::Client);
        let action = socket
            .read(ReadEvent::Failed { error: failure(kind), text: "what it prints".to_string() });
        assert_eq!(
            action,
            ReadAction::Reply {
                reply: Reply::Close(CloseReason {
                    code: CloseCode::Protocol,
                    description: Some("what it prints".to_string()),
                }),
                result: Err(failure(kind)),
            }
        );
        assert!(socket.is_closed());
    }
}

#[test]
fn failure_of_the_stream_is_not_told() {
    let mut socket = socket(Role::Client);
    let error = failure(ErrorKind::IO);
    assert!(error.is_io());
    let action = socket.read(ReadEvent::Failed { error, text: "gone".to_string() });
    assert_eq!(action, ReadAction::Return(Err(failure(ErrorKind::IO))));
    assert!(socket.is_closed());
}

#[test]
fn failed_payload_ends_the_session() {
    let mut open = socket(Role::Client);
    assert_eq!(open.finish_write(Written::Payload, Ok(())), Ok(()));
    assert_eq!(
        open.finish_write(Written::Fragment, Err(failure(ErrorKind::IO))),
        Err(failure(ErrorKind::IO))
    );
    assert!(!open.is_closed());
    assert_eq!(
        open.finish_write(Written::Payload, Err(failure(ErrorKind::Extension))),
        Err(failure(ErrorKind::Extension))
    );
    assert!(open.is_closed());

    let mut closing = socket(Role::Client);
    closing.close(None);
    assert_eq!(
        closing.finish_write(Written::Close, Err(failure(ErrorKind::IO))),
        Err(failure(ErrorKind::IO))
    );
    assert!(closing.is_closed());
}

#[test]
fn closing_gives_the_reason_to_write() {
    let mut socket = socket(Role::Client);
    let reason = socket.close(Some("done".to_string()));
    assert_eq!(reason.code, CloseCode::Normal);
    assert_eq!(reason.description, Some("done".to_string()));
    assert!(socket.is_closed());

    let reason = socket.close_with(CloseReason::new(CloseCode::Other(1001), None));
    assert_eq!(reason, CloseReason { code: CloseCode::Other(1001), description: None });
    assert!(socket.is_closed());
}

#[test]
fn message_is_cut_into_fragments() {
    let socket = socket(Role::Client);
    assert_eq!(
        socket.write_fragmented(b"abcdefg", MessageType::Text, 3),
        Ok(vec![
            frame(TEXT, false, &b"abc"[..], Coding::Extension),
            frame(CONTINUATION, false, &b"def"[..], Coding::Extension),
            frame(CONTINUATION, true, &b"g"[..], Coding::Extension),
        ])
    );
    assert_eq!(
        socket.write_fragmented(b"abcdef", MessageType::Binary, 3),
        Ok(vec![
            frame(BINARY, false, &b"abc"[..], Coding::Extension),
            frame(CONTINUATION, true, &b"def"[..], Coding::Extension),
        ])
    );
}

#[test]
fn short_message_is_a_single_frame() {
    let socket = socket(Role::Client);
    for size in [3, 4, 100] {
        assert_eq!(
            socket.write_fragmented(b"abc", MessageType::Text, size),
            Ok(vec![frame(TEXT, true, &b"abc"[..], Coding::Extension)])
        );
    }
    assert_eq!(
        socket.write_fragmented(b"", MessageType::Binary, 1),
        Ok(vec![frame(BINARY, true, &b""[..], Coding::Extension)])
    );
}

#[test]
fn split_is_undone_by_from_parts() {
    let mut whole = socket(Role::Server);
    whole.write_ping(b"still waiting").unwrap();
    let SplitSocket { mut framed, control_buffer, extension } = whole.split().unwrap();
    assert!(framed.is_server());
    assert_eq!(framed.framing().max_message_size, 99);
    assert_eq!(*framed.io_mut().0, 7);
    assert_eq!(&framed.io_mut().1[..], b"early");
    assert_eq!(&control_buffer[..], b"still waiting");
    let again = WebSocket::from_parts(framed, control_buffer, extension, false);
    assert_eq!(again.role(), Role::Server);
    assert_eq!(&again.control_buffer()[..], b"still waiting");
    assert!(!again.is_closed());
    let SplitSocket { framed, control_buffer, extension } = again.split().unwrap();
    assert!(WebSocket::from_parts(framed, control_buffer, extension, true).is_closed());
}

#[derive(Debug, PartialEq)]
struct Xor {
    key: u8,
    uses: u32,
}

impl ExtensionEncoder for Xor {
    fn encode(&mut self, payload: &mut BytesMut, header: &mut FrameHeader) -> Result<(), String> {
        if self.uses == 0 {
            return Err("worn out".to_string());
        }
        self.uses -= 1;
        for byte in payload.iter_mut() {
            *byte ^= self.key;
        }
        header.rsv1 = true;
        Ok(())
    }
}

impl Extension for Xor {
    fn bits(&self) -> RsvBits {
        RsvBits { rsv1: true, rsv2: false, rsv3: false }
    }
}

fn header() -> FrameHeader {
    FrameHeader { fin: true, rsv1: false, rsv2: false, rsv3: false, opcode: TEXT }
}

#[test]
fn extension_encodes_or_fails() {
    let mut extension = Xor { key: 0xff, uses: 1 };
    let mut payload = BytesMut::from(&[0x00, 0x0f][..]);
    let mut changed = header();
    assert_eq!(extension_encode(&mut extension, &mut payload, &mut changed), Ok(()));
    assert_eq!(&payload[..], &[0xff, 0xf0]);
    assert!(changed.rsv1);

    assert_eq!(
        extension_encode(&mut extension, &mut payload, &mut changed),
        Err(Error {
            kind: ErrorKind::Extension,
            cause: Cause::Description("worn out".to_string()),
        })
    );
}

#[test]
fn no_extension_changes_nothing() {
    let mut payload = BytesMut::from("as it is");
    let mut same = header();
    assert_eq!(extension_encode(&mut NoExt, &mut payload, &mut same), Ok(()));
    assert_eq!(&payload[..], b"as it is");
    assert_eq!(same, header());
}

#[test]
fn framing_knows_the_bits_of_the_extension() {
    let mut socket = WebSocket::from_upgraded(
        WebSocketConfig { max_message_size: 1 },
        (),
        Xor { key: 1, uses: 2 },
        BytesMut::new(),
        Role::Client,
    );
    assert_eq!(socket.framing().ext_bits, RsvBits { rsv1: true, rsv2: false, rsv3: false });
    assert_eq!(*socket.connection_mut().2, Xor { key: 1, uses: 2 });
}

#[test]
fn ping_that_failed_is_remembered() {
    let mut socket = socket(Role::Client);
    socket.write_ping(b"lost").unwrap();
    assert!(socket.finish_write(Written::Payload, Err(failure(ErrorKind::IO))).is_err());
    assert!(socket.is_closed());
    assert_eq!(&socket.control_buffer()[..], b"lost");
}

#[test]
fn role_survives_what_the_framing_layer_does() {
    let mut socket = socket(Role::Server);
    let before = socket.framing();
    let (stream, read_buffer, _) = socket.connection_mut();
    *stream = 8;
    read_buffer.clear();
    assert_eq!(*socket.connection_mut().0, 8);
    assert!(socket.connection_mut().1.is_empty());
    socket.write_ping(b"still here").unwrap();
    socket.read(ReadEvent::Received(Item::Ping(BytesMut::from("and here"))));
    socket.close(None);
    assert_eq!(socket.role(), Role::Server);
    assert_eq!(socket.framing(), before);
}

#[test]
fn left_over_bytes_stay_until_they_are_taken() {
    let mut socket = socket(Role::Server);
    socket.write_text("text").unwrap();
    socket.write_ping(b"ping").unwrap();
    socket.finish_write(Written::Payload, Ok(())).unwrap();
    socket.read(ReadEvent::Start);
    socket.read(ReadEvent::Received(Item::Pong(BytesMut::from("ping"))));
    assert_eq!(&socket.connection_mut().1[..], b"early");

    socket.connection_mut().1.extend_from_slice(b" and late");
    socket.close(None);
    socket.close_with(CloseReason::new(CloseCode::Normal, None));
    assert_eq!(&socket.connection_mut().1[..], b"early and late");
}
