//! Two WebSockets that talk to each other over a link that carries whole frames.

use bytes::{Bytes, BytesMut};
use ratchet_core::{
    Cause, CloseReason, ControlCode, DataCode, Error, ErrorKind, Frame, Item, Message,
    MessageType, NoExt, OpCode, ProtocolError, ReadAction, ReadEvent, Reply, Role, WebSocket,
    WebSocketConfig, Written, CONTROL_MAX_SIZE,
};
use std::collections::VecDeque;

enum Wire {
    Frame(OpCode, bool, Vec<u8>),
    Close(CloseReason),
}

struct Side {
    socket: WebSocket<(), NoExt>,
    inbox: VecDeque<Wire>,
    reading: Option<DataCode>,
}

fn side(role: Role) -> Side {
    let config = WebSocketConfig { max_message_size: 4096 };
    Side {
        socket: WebSocket::from_upgraded(config, (), NoExt, BytesMut::new(), role),
        inbox: VecDeque::new(),
        reading: None,
    }
}

fn fixture() -> (Side, Side) {
    (side(Role::Client), side(Role::Server))
}

fn send(to: &mut Side, frame: Frame<&[u8]>) {
    to.inbox.push_back(Wire::Frame(frame.op_code, frame.flags.fin, frame.payload.to_vec()));
}

fn write_ping(from: &mut Side, to: &mut Side, payload: &[u8]) -> Result<(), Error> {
    let frame = from.socket.write_ping(payload)?;
    send(to, frame);
    from.socket.finish_write(Written::Payload, Ok(()))
}

fn write_pong(from: &mut Side, to: &mut Side, payload: &[u8]) -> Result<(), Error> {
    let frame = from.socket.write_pong(payload)?;
    send(to, frame);
    from.socket.finish_write(Written::Payload, Ok(()))
}

fn write_frame(to: &mut Side, payload: &[u8], op_code: OpCode, fin: bool) {
    to.inbox.push_back(Wire::Frame(op_code, fin, payload.to_vec()));
}

fn receive(side: &mut Side, read_buffer: &mut BytesMut) -> ReadEvent {
    loop {
        match side.inbox.pop_front().expect("nothing to read") {
            Wire::Close(reason) => return ReadEvent::Received(Item::Close(Some(reason))),
            Wire::Frame(OpCode::ControlCode(code), _, payload) => {
                if payload.len() > CONTROL_MAX_SIZE {
                    return ReadEvent::Failed {
                        error: Error::with_cause(
                            ErrorKind::Protocol,
                            Cause::ProtocolError(ProtocolError::FrameOverflow),
                        ),
                        text: "frame overflow".to_string(),
                    };
                }
                let payload = BytesMut::from(&payload[..]);
                return ReadEvent::Received(match code {
                    ControlCode::Ping => Item::Ping(payload),
                    ControlCode::Pong => Item::Pong(payload),
                    ControlCode::Close => Item::Close(None),
                });
            }
            Wire::Frame(OpCode::DataCode(code), fin, payload) => {
                read_buffer.extend_from_slice(&payload);
                if code != DataCode::Continuation {
                    side.reading = Some(code);
                }
                if fin {
                    return ReadEvent::Received(match side.reading.take() {
                        Some(DataCode::Text) => Item::Text,
                        Some(DataCode::Binary) => Item::Binary,
                        _ => panic!("a continuation of nothing"),
                    });
                }
            }
        }
    }
}

fn read(from: &mut Side, to: &mut Side, read_buffer: &mut BytesMut) -> Result<Message, Error> {
    let mut event = ReadEvent::Start;
    loop {
        match from.socket.read(event) {
            ReadAction::Receive => event = receive(from, read_buffer),
            ReadAction::Reply { reply, result } => {
                to.inbox.push_back(match reply {
                    Reply::Frame(frame) => {
                        Wire::Frame(frame.op_code, frame.flags.fin, frame.payload.to_vec())
                    }
                    Reply::Close(reason) => Wire::Close(reason),
                });
                event = ReadEvent::Replied { result, outcome: Ok(()) };
            }
            ReadAction::Return(result) => return result,
        }
    }
}

#[test]
fn ping_pong() {
    let (mut client, mut server) = fixture();
    let payload = "ping!";
    write_ping(&mut client, &mut server, payload.as_bytes()).expect("Send failed.");

    let mut read_buf = BytesMut::new();
    let message = read(&mut server, &mut client, &mut read_buf).expect("Read failure");

    assert_eq!(message, Message::Ping(Bytes::from("ping!")));
    assert!(read_buf.is_empty());

    let message = read(&mut client, &mut server, &mut read_buf).expect("Read failure");
    assert_eq!(message, Message::Pong(Bytes::from("ping!")));
    assert!(read_buf.is_empty());
}

#[test]
fn reads_unsolicited_pong() {
    let (mut client, mut server) = fixture();
    let payload = "pong!";

    let mut read_buf = BytesMut::new();
    write_pong(&mut server, &mut client, payload.as_bytes()).expect("Write failure");

    let message = read(&mut client, &mut server, &mut read_buf).expect("Read failure");
    assert_eq!(message, Message::Pong(Bytes::from(payload)));
    assert!(read_buf.is_empty());
}

#[test]
fn empty_control_frame() {
    let (mut client, mut server) = fixture();

    let mut read_buf = BytesMut::new();
    write_pong(&mut server, &mut client, &[]).expect("Write failure");

    let message = read(&mut client, &mut server, &mut read_buf).expect("Read failure");
    assert_eq!(message, Message::Pong(Bytes::new()));
    assert!(read_buf.is_empty());
}

#[test]
fn interleaved_control_frames() {
    let (mut client, mut server) = fixture();
    let control_data = "data";

    write_frame(&mut server, b"123", OpCode::DataCode(DataCode::Text), false);
    write_frame(&mut server, b"456", OpCode::DataCode(DataCode::Continuation), false);
    // The link hands a control frame up when its turn comes, with what precedes it in the buffer.
    write_frame(
        &mut server,
        control_data.as_bytes(),
        OpCode::ControlCode(ControlCode::Ping),
        true,
    );
    write_frame(
        &mut server,
        control_data.as_bytes(),
        OpCode::ControlCode(ControlCode::Pong),
        true,
    );
    write_frame(&mut server, b"789", OpCode::DataCode(DataCode::Continuation), true);

    let mut buf = BytesMut::new();
    let message = read(&mut server, &mut client, &mut buf).expect("Read failure");

    assert_eq!(message, Message::Ping(Bytes::from(control_data)));
    assert!(!buf.is_empty());

    let message = read(&mut server, &mut client, &mut buf).expect("Read failure");

    assert_eq!(message, Message::Pong(Bytes::from(control_data)));
    assert!(!buf.is_empty());

    let message = read(&mut server, &mut client, &mut buf).expect("Read failure");

    assert_eq!(message, Message::Text);
    assert!(!buf.is_empty());

    assert_eq!(
        String::from_utf8(buf.to_vec()).expect("Malformatted data received"),
        "123456789"
    );
}

#[test]
fn large_control_frames() {
    {
        let (mut client, mut server) = fixture();
        let error = write_ping(&mut client, &mut server, &[13; 256]).unwrap_err();
        assert!(error.is_protocol());
    }
    {
        let (mut client, mut server) = fixture();
        write_frame(&mut client, &[13; 256], OpCode::ControlCode(ControlCode::Pong), true);

        let error = read(&mut client, &mut server, &mut BytesMut::new()).unwrap_err();
        assert!(error.is_protocol());
    }
}

#[test]
fn fragmented_message_is_read_whole() {
    for size in 1..12 {
        let (mut client, mut server) = fixture();
        let frames = client
            .socket
            .write_fragmented(b"0123456789", MessageType::Binary, size)
            .expect("Write failure");
        for frame in frames {
            send(&mut server, frame);
        }
        let mut buf = BytesMut::new();
        let message = read(&mut server, &mut client, &mut buf).expect("Read failure");
        assert_eq!(message, Message::Binary);
        assert_eq!(&buf[..], b"0123456789");
    }
}

#[test]
fn text_is_read_as_text() {
    let (mut client, mut server) = fixture();
    let frame = client.socket.write_text("grüße").expect("Write failure");
    send(&mut server, frame);
    let mut buf = BytesMut::new();
    let message = read(&mut server, &mut client, &mut buf).expect("Read failure");
    assert_eq!(message, Message::Text);
    assert_eq!(&buf[..], "grüße".as_bytes());
}

#[test]
fn close_ends_both_sides() {
    let (mut client, mut server) = fixture();
    let reason = client.socket.close(Some("bye".to_string()));
    server.inbox.push_back(Wire::Close(reason.clone()));

    let message = read(&mut server, &mut client, &mut BytesMut::new()).expect("Read failure");
    assert_eq!(message, Message::Close(Some(reason)));
    assert!(client.socket.is_closed());
    assert!(server.socket.is_closed());
    assert_eq!(client.inbox.len(), 1);
}
