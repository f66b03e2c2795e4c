//! What each operation does, said of what goes into it and what comes out of it.
//!
//! The statements here speak of values, of calls and of the two things that can be observed of a
//! WebSocket, whether it is closed and which ping it remembers. They do not rest on how the session
//! is described elsewhere.

use crate::buffer::{buffered, frozen};
use crate::errors::{Cause, Error, ErrorKind, ProtocolError};
use crate::ext::{encoded, extension_encode, Extension, ExtensionEncoder, FrameHeader, NoExt, RsvBits};
use crate::framed::{Coding, Frame, FramedIo, Framing, Item};
use crate::protocol::{
    CloseCode, CloseReason, ControlCode, DataCode, HeaderFlags, Message, MessageType, OpCode,
    PayloadType, Role, WebSocketConfig,
};
use crate::session::{fragments, ReadAction, ReadEvent, Reply, Session, Written};
use crate::ws::{frames_view, SplitSocket, WebSocket};
use bytes::BytesMut;
use vstd::prelude::*;

verus! {

/// A write on a closed WebSocket is refused because it is closed. A ping or a pong of more than 125
/// bytes is refused as a breach of the protocol. Everything else is given one frame, which is the
/// last of its message, holds the payload as it is, goes by way of the extension and has the
/// operation code of what was asked for. A ping that is given a frame is remembered in place of the
/// one before, and nothing else changes.
pub proof fn a_write_gives_its_frame<S, E>()
    ensures
        forall|
            socket: &mut WebSocket<S, E>,
            buf: &[u8],
            message_type: PayloadType,
            result: Result<Frame<&[u8]>, Error>,
        | #[trigger]
            call_ensures(WebSocket::<S, E>::write, (socket, buf, message_type), result) ==> {
                &&& socket@.closed ==> result == Err::<Frame<&[u8]>, Error>(
                    Error { kind: ErrorKind::Close, cause: Cause::CloseError },
                )
                &&& !socket@.closed && (message_type == PayloadType::Ping || message_type
                    == PayloadType::Pong) && buf@.len() > 125 ==> result == Err::<
                    Frame<&[u8]>,
                    Error,
                >(
                    Error {
                        kind: ErrorKind::Protocol,
                        cause: Cause::ProtocolError(ProtocolError::FrameOverflow),
                    },
                )
                &&& !socket@.closed && (message_type == PayloadType::Text || message_type
                    == PayloadType::Binary || buf@.len() <= 125) ==> {
                    &&& result matches Ok(frame)
                    &&& frame.op_code == match message_type {
                        PayloadType::Text => OpCode::DataCode(DataCode::Text),
                        PayloadType::Binary => OpCode::DataCode(DataCode::Binary),
                        PayloadType::Ping => OpCode::ControlCode(ControlCode::Ping),
                        PayloadType::Pong => OpCode::ControlCode(ControlCode::Pong),
                    }
                    &&& frame.flags.fin
                    &&& frame.payload@ == buf@
                    &&& frame.coding == Coding::Extension
                }
                &&& final(socket)@.closed == socket@.closed
                &&& final(socket)@.control == if !socket@.closed && message_type
                    == PayloadType::Ping && buf@.len() <= 125 {
                    buf@
                } else {
                    socket@.control
                }
                &&& final(socket).spec_framed() == socket.spec_framed()
                &&& final(socket).spec_extension() == socket.spec_extension()
            },
{
}

/// A text is refused only if the WebSocket is closed, and is otherwise given one text frame that
/// holds its UTF-8 encoding.
pub proof fn a_text_gives_its_frame<S, E>()
    ensures
        forall|socket: &mut WebSocket<S, E>, data: &str, result: Result<Frame<&[u8]>, Error>|
            #[trigger] call_ensures(WebSocket::<S, E>::write_text, (socket, data), result) ==> {
                &&& socket@.closed ==> result == Err::<Frame<&[u8]>, Error>(
                    Error { kind: ErrorKind::Close, cause: Cause::CloseError },
                )
                &&& !socket@.closed ==> {
                    &&& result matches Ok(frame)
                    &&& frame.op_code == OpCode::DataCode(DataCode::Text)
                    &&& frame.flags.fin
                    &&& frame.payload@ == vstd::utf8::encode_utf8(data@)
                    &&& frame.coding == Coding::Extension
                }
                &&& final(socket)@.closed == socket@.closed
                &&& final(socket)@.control == socket@.control
                &&& final(socket).spec_framed() == socket.spec_framed()
                &&& final(socket).spec_extension() == socket.spec_extension()
            },
{
}

/// Bytes written as a binary message are refused only if the WebSocket is closed, and are otherwise
/// given one binary frame that holds them.
pub proof fn a_binary_gives_its_frame<S, E>()
    ensures
        forall|socket: &mut WebSocket<S, E>, data: &[u8], result: Result<Frame<&[u8]>, Error>|
            #[trigger] call_ensures(WebSocket::<S, E>::write_binary, (socket, data), result) ==> {
                &&& socket@.closed ==> result == Err::<Frame<&[u8]>, Error>(
                    Error { kind: ErrorKind::Close, cause: Cause::CloseError },
                )
                &&& !socket@.closed ==> {
                    &&& result matches Ok(frame)
                    &&& frame.op_code == OpCode::DataCode(DataCode::Binary)
                    &&& frame.flags.fin
                    &&& frame.payload@ == data@
                    &&& frame.coding == Coding::Extension
                }
                &&& final(socket)@.closed == socket@.closed
                &&& final(socket)@.control == socket@.control
                &&& final(socket).spec_framed() == socket.spec_framed()
                &&& final(socket).spec_extension() == socket.spec_extension()
            },
{
}

/// A ping of at most 125 bytes on an open WebSocket is given one ping frame that holds them, and is
/// remembered. Any other is refused and changes nothing.
pub proof fn a_ping_gives_its_frame<S, E>()
    ensures
        forall|socket: &mut WebSocket<S, E>, data: &[u8], result: Result<Frame<&[u8]>, Error>|
            #[trigger] call_ensures(WebSocket::<S, E>::write_ping, (socket, data), result) ==> {
                &&& socket@.closed ==> result == Err::<Frame<&[u8]>, Error>(
                    Error { kind: ErrorKind::Close, cause: Cause::CloseError },
                )
                &&& !socket@.closed && data@.len() > 125 ==> result == Err::<Frame<&[u8]>, Error>(
                    Error {
                        kind: ErrorKind::Protocol,
                        cause: Cause::ProtocolError(ProtocolError::FrameOverflow),
                    },
                )
                &&& !socket@.closed && data@.len() <= 125 ==> {
                    &&& result matches Ok(frame)
                    &&& frame.op_code == OpCode::ControlCode(ControlCode::Ping)
                    &&& frame.flags.fin
                    &&& frame.payload@ == data@
                    &&& frame.coding == Coding::Extension
                    &&& final(socket)@.control == data@
                }
                &&& result is Err ==> final(socket)@.control == socket@.control
                &&& final(socket)@.closed == socket@.closed
                &&& final(socket).spec_framed() == socket.spec_framed()
                &&& final(socket).spec_extension() == socket.spec_extension()
            },
{
}

/// A pong of at most 125 bytes on an open WebSocket is given one pong frame that holds them. Any
/// other is refused. Neither changes anything.
pub proof fn a_pong_gives_its_frame<S, E>()
    ensures
        forall|socket: &mut WebSocket<S, E>, data: &[u8], result: Result<Frame<&[u8]>, Error>|
            #[trigger] call_ensures(WebSocket::<S, E>::write_pong, (socket, data), result) ==> {
                &&& socket@.closed ==> result == Err::<Frame<&[u8]>, Error>(
                    Error { kind: ErrorKind::Close, cause: Cause::CloseError },
                )
                &&& !socket@.closed && data@.len() > 125 ==> result == Err::<Frame<&[u8]>, Error>(
                    Error {
                        kind: ErrorKind::Protocol,
                        cause: Cause::ProtocolError(ProtocolError::FrameOverflow),
                    },
                )
                &&& !socket@.closed && data@.len() <= 125 ==> {
                    &&& result matches Ok(frame)
                    &&& frame.op_code == OpCode::ControlCode(ControlCode::Pong)
                    &&& frame.flags.fin
                    &&& frame.payload@ == data@
                    &&& frame.coding == Coding::Extension
                }
                &&& final(socket)@.closed == socket@.closed
                &&& final(socket)@.control == socket@.control
                &&& final(socket).spec_framed() == socket.spec_framed()
                &&& final(socket).spec_extension() == socket.spec_extension()
            },
{
}

/// What a session gives for a write: the frame of what was asked for, with the payload as it is, or
/// the error with which the write is refused. Text and bytes are refused only if the session is
/// over, pings and pongs also if they hold more than 125 bytes. A refusal is told the same way
/// wherever it is told.
pub proof fn a_session_gives_the_frame_or_refuses(
    session: Session,
    payload: Seq<u8>,
    message_type: PayloadType,
)
    ensures
        session.write_error(payload, message_type) is Some <==> session.write_result(
            payload,
            message_type,
        ) is Err,
        session.write_error(payload, message_type) matches Some(error) ==> session.write_result(
            payload,
            message_type,
        ) == Err::<Frame<Seq<u8>>, Error>(error),
        session.closed ==> session.write_result(payload, message_type) == Err::<
            Frame<Seq<u8>>,
            Error,
        >(Error { kind: ErrorKind::Close, cause: Cause::CloseError }),
        !session.closed && (message_type == PayloadType::Ping || message_type == PayloadType::Pong)
            && payload.len() > 125 ==> session.write_result(payload, message_type) == Err::<
            Frame<Seq<u8>>,
            Error,
        >(
            Error {
                kind: ErrorKind::Protocol,
                cause: Cause::ProtocolError(ProtocolError::FrameOverflow),
            },
        ),
        !session.closed && (message_type == PayloadType::Text || message_type == PayloadType::Binary
            || payload.len() <= 125) ==> session.write_result(payload, message_type) == Ok::<
            Frame<Seq<u8>>,
            Error,
        >(
            Frame {
                op_code: match message_type {
                    PayloadType::Text => OpCode::DataCode(DataCode::Text),
                    PayloadType::Binary => OpCode::DataCode(DataCode::Binary),
                    PayloadType::Ping => OpCode::ControlCode(ControlCode::Ping),
                    PayloadType::Pong => OpCode::ControlCode(ControlCode::Pong),
                },
                flags: HeaderFlags { fin: true },
                payload,
                coding: Coding::Extension,
            },
        ),
{
}

/// How a payload is cut: into as few frames as hold it at `size` bytes each, and into one if it is
/// empty. Frame number `i` holds the bytes from `i * size` on, `size` of them or all that are left.
proof fn cut_of_fragments(op_code: OpCode, payload: Seq<u8>, size: nat)
    requires
        size > 0,
    ensures
        ({
            let frames = fragments(op_code, payload, size);
            let n = frames.len() as int;
            &&& payload.len() == 0 ==> n == 1
            &&& payload.len() > 0 ==> (n - 1) * size < payload.len() <= n * size
            &&& n >= 1
            &&& forall|i: int|
                0 <= i < n - 1 ==> #[trigger] frames[i] == (Frame {
                    op_code: if i == 0 {
                        op_code
                    } else {
                        OpCode::DataCode(DataCode::Continuation)
                    },
                    flags: HeaderFlags { fin: false },
                    payload: payload.subrange(i * size, (i + 1) * size),
                    coding: Coding::Extension,
                })
            &&& 0 <= (n - 1) * size <= payload.len()
            &&& frames[n - 1] == (Frame {
                op_code: if n == 1 {
                    op_code
                } else {
                    OpCode::DataCode(DataCode::Continuation)
                },
                flags: HeaderFlags { fin: true },
                payload: payload.subrange((n - 1) * size, payload.len() as int),
                coding: Coding::Extension,
            })
        }),
    decreases payload.len(),
{
    let frames = fragments(op_code, payload, size);
    let n = frames.len() as int;
    let s = size as int;
    if payload.len() <= size {
        assert(n == 1);
        assert((n - 1) * s == 0 && n * s == s) by (nonlinear_arith)
            requires
                n == 1,
        ;
        assert(payload.subrange(0, payload.len() as int) =~= payload);
    } else {
        let continuation = OpCode::DataCode(DataCode::Continuation);
        let rest = payload.skip(s);
        let tail = fragments(continuation, rest, size);
        let m = tail.len() as int;
        cut_of_fragments(continuation, rest, size);
        assert(n - 1 == m && (n - 1) * s == m * s && n * s == (m + 1) * s);
        assert(m * s == (m - 1) * s + s) by (nonlinear_arith);
        assert((m + 1) * s == m * s + s) by (nonlinear_arith);
        assert forall|i: int| 0 <= i < n - 1 implies #[trigger] frames[i] == (Frame {
            op_code: if i == 0 {
                op_code
            } else {
                OpCode::DataCode(DataCode::Continuation)
            },
            flags: HeaderFlags { fin: false },
            payload: payload.subrange(i * size, (i + 1) * size),
            coding: Coding::Extension,
        }) by {
            if i == 0 {
                assert(0 * s == 0 && 1 * s == s);
                assert(payload.take(s) =~= payload.subrange(0, s));
            } else {
                assert(frames[i] == tail[i - 1]);
                assert(0 <= (i - 1) * s && i * s <= (m - 1) * s) by (nonlinear_arith)
                    requires
                        1 <= i <= m - 1,
                        s > 0,
                ;
                assert(i * s == (i - 1) * s + s) by (nonlinear_arith);
                assert((i + 1) * s == i * s + s) by (nonlinear_arith);
                assert(rest.subrange((i - 1) * s, i * s) =~= payload.subrange(
                    i * s,
                    (i + 1) * s,
                ));
            }
        }
        assert(frames[n - 1] == tail[m - 1]);
        assert(rest.subrange((m - 1) * s, rest.len() as int) =~= payload.subrange(
            m * s,
            payload.len() as int,
        ));
    }
}

/// A fragmented write on an open session gives frames of `size` bytes, as many as the payload fills
/// and one more for what is left. The first has the operation code of the message and the others
/// continue it. The last alone says that it is the last. All go by way of the extension.
pub proof fn a_session_cuts_by_size(
    session: Session,
    payload: Seq<u8>,
    message_type: MessageType,
    size: nat,
)
    requires
        !session.closed,
        size > 0,
    ensures
        session.fragments_result(payload, message_type, size) matches Ok(frames) && {
            let n = frames.len() as int;
            &&& n >= 1
            &&& payload.len() == 0 ==> n == 1
            &&& payload.len() > 0 ==> (n - 1) * size < payload.len() <= n * size
            &&& forall|i: int|
                0 <= i < n ==> {
                    &&& (#[trigger] frames[i]).coding == Coding::Extension
                    &&& frames[i].flags.fin <==> i == n - 1
                    &&& frames[i].op_code == if i > 0 {
                        OpCode::DataCode(DataCode::Continuation)
                    } else if message_type == MessageType::Text {
                        OpCode::DataCode(DataCode::Text)
                    } else {
                        OpCode::DataCode(DataCode::Binary)
                    }
                    &&& frames[i].payload.len() <= size
                    &&& i < n - 1 ==> frames[i].payload.len() == size
                    &&& frames[i].payload == payload.subrange(
                        i * size,
                        if i < n - 1 {
                            (i + 1) * size
                        } else {
                            payload.len() as int
                        },
                    )
                }
        },
{
    let op_code = message_type.spec_op_code();
    cut_of_fragments(op_code, payload, size);
    let frames = fragments(op_code, payload, size);
    let n = frames.len() as int;
    let s = size as int;
    assert(n * s == (n - 1) * s + s) by (nonlinear_arith);
    assert forall|i: int| 0 <= i < n implies (#[trigger] frames[i]).payload.len() <= size && (i < n
        - 1 ==> frames[i].payload.len() == size) by {
        assert((i + 1) * s == i * s + s) by (nonlinear_arith);
        if i < n - 1 {
            assert(0 <= i * s && (i + 1) * s <= (n - 1) * s) by (nonlinear_arith)
                requires
                    0 <= i < n - 1,
                    s > 0,
            ;
        }
    }
}

/// A message written in fragments is refused only if the WebSocket is closed. It is otherwise given
/// frames of `fragment_size` bytes, as many as the message fills and one more for what is left:
/// frame number `i` holds the bytes of the message from `i * fragment_size` on. The first has the
/// operation code of the message and the others continue it. The last alone says that it is the
/// last. All go by way of the extension.
pub proof fn a_message_is_cut_by_size<S, E>(
    socket: WebSocket<S, E>,
    buf: &[u8],
    message_type: MessageType,
    fragment_size: usize,
    result: Result<Vec<Frame<&[u8]>>, Error>,
)
    requires
        call_ensures(
            WebSocket::<S, E>::write_fragmented,
            (&socket, buf, message_type, fragment_size),
            result,
        ),
        socket@.closed || fragment_size > 0,
    ensures
        socket@.closed ==> result == Err::<Vec<Frame<&[u8]>>, Error>(
            Error { kind: ErrorKind::Close, cause: Cause::CloseError },
        ),
        !socket@.closed ==> (result matches Ok(frames) && {
            let n = frames@.len() as int;
            &&& n >= 1
            &&& buf@.len() == 0 ==> n == 1
            &&& buf@.len() > 0 ==> (n - 1) * fragment_size < buf@.len() <= n * fragment_size
            &&& forall|i: int|
                0 <= i < n ==> {
                    &&& (#[trigger] frames@[i]).coding == Coding::Extension
                    &&& frames@[i].flags.fin <==> i == n - 1
                    &&& frames@[i].op_code == if i > 0 {
                        OpCode::DataCode(DataCode::Continuation)
                    } else if message_type == MessageType::Text {
                        OpCode::DataCode(DataCode::Text)
                    } else {
                        OpCode::DataCode(DataCode::Binary)
                    }
                    &&& frames@[i].payload@.len() <= fragment_size
                    &&& i < n - 1 ==> frames@[i].payload@.len() == fragment_size
                    &&& frames@[i].payload@ == buf@.subrange(
                        i * fragment_size,
                        if i < n - 1 {
                            (i + 1) * fragment_size
                        } else {
                            buf@.len() as int
                        },
                    )
                }
        }),
{
    if !socket@.closed {
        a_session_cuts_by_size(socket@, buf@, message_type, fragment_size as nat);
        let frames = result->Ok_0;
        let seen = frames_view(frames@);
        assert(forall|i: int|
            0 <= i < frames@.len() ==> (#[trigger] frames@[i])@ == seen[i]);
    }
}

/// Every operation may be asked of every WebSocket, with every argument. Only a message is not to be
/// cut into fragments of no bytes.
pub proof fn every_operation_may_be_asked<S, E>()
    ensures
        forall|socket: &mut WebSocket<S, E>, event: ReadEvent| #[trigger]
            call_requires(WebSocket::<S, E>::read, (socket, event)),
        forall|socket: &mut WebSocket<S, E>, buf: &[u8], message_type: PayloadType| #[trigger]
            call_requires(WebSocket::<S, E>::write, (socket, buf, message_type)),
        forall|socket: &mut WebSocket<S, E>, data: &str| #[trigger]
            call_requires(WebSocket::<S, E>::write_text, (socket, data)),
        forall|socket: &mut WebSocket<S, E>, data: &[u8]| #[trigger]
            call_requires(WebSocket::<S, E>::write_binary, (socket, data)),
        forall|socket: &mut WebSocket<S, E>, data: &[u8]| #[trigger]
            call_requires(WebSocket::<S, E>::write_ping, (socket, data)),
        forall|socket: &mut WebSocket<S, E>, data: &[u8]| #[trigger]
            call_requires(WebSocket::<S, E>::write_pong, (socket, data)),
        forall|socket: &mut WebSocket<S, E>, written: Written, outcome: Result<(), Error>|
            #[trigger] call_requires(
                WebSocket::<S, E>::finish_write,
                (socket, written, outcome),
            ),
        forall|socket: &mut WebSocket<S, E>, reason: Option<String>| #[trigger]
            call_requires(WebSocket::<S, E>::close, (socket, reason)),
        forall|socket: &mut WebSocket<S, E>, reason: CloseReason| #[trigger]
            call_requires(WebSocket::<S, E>::close_with, (socket, reason)),
        forall|socket: WebSocket<S, E>| #[trigger]
            call_requires(WebSocket::<S, E>::split, (socket,)),
        forall|socket: &WebSocket<S, E>, buf: &[u8], message_type: MessageType, size: usize|
            size > 0 ==> #[trigger] call_requires(
                WebSocket::<S, E>::write_fragmented,
                (socket, buf, message_type, size),
            ),
{
}

/// A read is refused if the WebSocket is closed, and otherwise begins by receiving.
pub proof fn a_read_begins<S, E>()
    ensures
        forall|socket: &mut WebSocket<S, E>, event: ReadEvent, action: ReadAction| #[trigger]
            call_ensures(WebSocket::<S, E>::read, (socket, event), action) ==> {
                &&& final(socket).spec_framed() == socket.spec_framed()
                &&& final(socket).spec_extension() == socket.spec_extension()
                &&& event == ReadEvent::Start ==> {
                    &&& socket@.closed ==> action == ReadAction::Return(
                        Err(Error { kind: ErrorKind::Close, cause: Cause::CloseError }),
                    )
                    &&& !socket@.closed ==> action == ReadAction::Receive
                    &&& final(socket)@.closed == socket@.closed
                    &&& final(socket)@.control == socket@.control
                }
            },
{
}

/// A message that comes in is returned as what it is, and changes nothing.
pub proof fn a_message_is_returned<S, E>()
    ensures
        forall|socket: &mut WebSocket<S, E>, event: ReadEvent, action: ReadAction| #[trigger]
            call_ensures(WebSocket::<S, E>::read, (socket, event), action) ==> {
                &&& event == ReadEvent::Received(Item::Text) ==> action == ReadAction::Return(
                    Ok(Message::Text),
                )
                &&& event == ReadEvent::Received(Item::Binary) ==> action == ReadAction::Return(
                    Ok(Message::Binary),
                )
                &&& event == ReadEvent::Received(Item::Text) || event == ReadEvent::Received(
                    Item::Binary,
                ) ==> {
                    &&& final(socket)@.closed == socket@.closed
                    &&& final(socket)@.control == socket@.control
                }
            },
{
}

/// A ping that comes in, of whatever length, is answered by a pong with the same bytes, in the last
/// frame of its message and past the extension. The ping is returned with its bytes. Nothing
/// changes.
pub proof fn a_ping_is_answered_and_returned<S, E>()
    ensures
        forall|socket: &mut WebSocket<S, E>, event: ReadEvent, action: ReadAction| #[trigger]
            call_ensures(WebSocket::<S, E>::read, (socket, event), action) ==> (event matches
                ReadEvent::Received(Item::Ping(payload)) ==> {
                &&& action matches ReadAction::Reply { reply: Reply::Frame(frame), result }
                &&& frame.op_code == OpCode::ControlCode(ControlCode::Pong)
                &&& frame.flags.fin
                &&& buffered(frame.payload) == buffered(payload)
                &&& frame.coding == Coding::Plain
                &&& result matches Ok(Message::Ping(data))
                &&& frozen(data) == buffered(payload)
                &&& final(socket)@.closed == socket@.closed
                &&& final(socket)@.control == socket@.control
            }),
{
}

/// A pong that comes in is returned with its bytes, and no ping is remembered any more.
pub proof fn a_pong_is_returned<S, E>()
    ensures
        forall|socket: &mut WebSocket<S, E>, event: ReadEvent, action: ReadAction| #[trigger]
            call_ensures(WebSocket::<S, E>::read, (socket, event), action) ==> (event matches
                ReadEvent::Received(Item::Pong(payload)) ==> {
                &&& action matches ReadAction::Return(Ok(Message::Pong(data)))
                &&& frozen(data) == buffered(payload)
                &&& final(socket)@.closed == socket@.closed
                &&& final(socket)@.control.len() == 0
            }),
{
}

/// A close that comes in ends the session. It is answered by a close with the same reason, or by an
/// empty close frame past the extension, and is returned with its reason.
pub proof fn a_close_is_answered_and_returned<S, E>()
    ensures
        forall|socket: &mut WebSocket<S, E>, event: ReadEvent, action: ReadAction| #[trigger]
            call_ensures(WebSocket::<S, E>::read, (socket, event), action) ==> (event matches
                ReadEvent::Received(Item::Close(reason)) ==> {
                &&& action matches ReadAction::Reply { reply, result }
                &&& result matches Ok(Message::Close(returned))
                &&& returned == reason
                &&& match reason {
                    Some(given) => reply == Reply::Close(given),
                    None => {
                        &&& reply matches Reply::Frame(frame)
                        &&& frame.op_code == OpCode::ControlCode(ControlCode::Close)
                        &&& frame.flags.fin
                        &&& buffered(frame.payload).len() == 0
                        &&& frame.coding == Coding::Plain
                    },
                }
                &&& final(socket)@.closed
                &&& final(socket)@.control == socket@.control
            }),
{
}

/// A failure to receive ends the session and is what the read fails with. The peer is told what the
/// error prints, as a breach of the protocol, unless it is the stream that failed.
pub proof fn a_failure_is_told_and_returned<S, E>()
    ensures
        forall|socket: &mut WebSocket<S, E>, event: ReadEvent, action: ReadAction| #[trigger]
            call_ensures(WebSocket::<S, E>::read, (socket, event), action) ==> (event matches
                ReadEvent::Failed { error, text } ==> {
                &&& error.kind == ErrorKind::IO ==> action == ReadAction::Return(Err(error))
                &&& error.kind != ErrorKind::IO ==> action == (ReadAction::Reply {
                    reply: Reply::Close(
                        CloseReason { code: CloseCode::Protocol, description: Some(text) },
                    ),
                    result: Err(error),
                })
                &&& final(socket)@.closed
                &&& final(socket)@.control == socket@.control
            }),
{
}

/// When the reply has been written, the read returns what came with the reply. When it could not be
/// written, the read returns that error. Neither changes anything.
pub proof fn a_read_ends<S, E>()
    ensures
        forall|socket: &mut WebSocket<S, E>, event: ReadEvent, action: ReadAction| #[trigger]
            call_ensures(WebSocket::<S, E>::read, (socket, event), action) ==> (event matches
                ReadEvent::Replied { result, outcome } ==> {
                &&& outcome matches Err(error) ==> action == ReadAction::Return(Err(error))
                &&& outcome is Ok ==> match result {
                    Err(error) => action == ReadAction::Return(Err(error)),
                    Ok(Message::Text) => action == ReadAction::Return(Ok(Message::Text)),
                    Ok(Message::Binary) => action == ReadAction::Return(Ok(Message::Binary)),
                    Ok(Message::Ping(came)) => action matches ReadAction::Return(
                        Ok(Message::Ping(data)),
                    ) && frozen(data) == frozen(came),
                    Ok(Message::Pong(came)) => action matches ReadAction::Return(
                        Ok(Message::Pong(data)),
                    ) && frozen(data) == frozen(came),
                    Ok(Message::Close(reason)) => action == ReadAction::Return(
                        Ok(Message::Close(reason)),
                    ),
                }
                &&& final(socket)@.closed == socket@.closed
                &&& final(socket)@.control == socket@.control
            }),
{
}

/// How writing went is the result of the operation that asked for it. A payload that could not be
/// written ends the session. A fragment or a close that could not be written leaves it as it was.
pub proof fn an_outcome_is_the_result<S, E>()
    ensures
        forall|
            socket: &mut WebSocket<S, E>,
            written: Written,
            outcome: Result<(), Error>,
            result: Result<(), Error>,
        | #[trigger]
            call_ensures(WebSocket::<S, E>::finish_write, (socket, written, outcome), result) ==> {
                &&& result == outcome
                &&& final(socket)@.closed == (socket@.closed || (written == Written::Payload
                    && outcome is Err))
                &&& final(socket)@.control == socket@.control
                &&& final(socket).spec_framed() == socket.spec_framed()
                &&& final(socket).spec_extension() == socket.spec_extension()
            },
{
}

/// Closing always closes, and gives the reason that is to be written: a normal close with the
/// description provided, or the reason provided as it is.
pub proof fn closing_closes<S, E>()
    ensures
        forall|socket: &mut WebSocket<S, E>, reason: Option<String>, close: CloseReason| #[trigger]
            call_ensures(WebSocket::<S, E>::close, (socket, reason), close) ==> {
                &&& close.code == CloseCode::Normal
                &&& close.description == reason
                &&& final(socket)@.closed
                &&& final(socket)@.control == socket@.control
                &&& final(socket).spec_framed() == socket.spec_framed()
                &&& final(socket).spec_extension() == socket.spec_extension()
            },
        forall|socket: &mut WebSocket<S, E>, reason: CloseReason, close: CloseReason| #[trigger]
            call_ensures(WebSocket::<S, E>::close_with, (socket, reason), close) ==> {
                &&& close == reason
                &&& final(socket)@.closed
                &&& final(socket)@.control == socket@.control
                &&& final(socket).spec_framed() == socket.spec_framed()
                &&& final(socket).spec_extension() == socket.spec_extension()
            },
{
}

/// What is observed of a WebSocket is what it is: whether it is closed, which ping it remembers,
/// which role and settings it has, and what the framing layer is lent.
pub proof fn what_is_observed<S, E>(
    socket: WebSocket<S, E>,
    closed: bool,
    control_buffer: &BytesMut,
    role: Role,
    framing: Framing,
)
    requires
        call_ensures(WebSocket::<S, E>::is_closed, (&socket,), closed),
        call_ensures(WebSocket::<S, E>::control_buffer, (&socket,), control_buffer),
        call_ensures(WebSocket::<S, E>::role, (&socket,), role),
        call_ensures(WebSocket::<S, E>::framing, (&socket,), framing),
    ensures
        closed == socket@.closed,
        buffered(*control_buffer) == socket@.control,
        role == framing.role,
        framing == socket.spec_framed().spec_framing(),
        forall|lending: &mut WebSocket<S, E>, parts: (&mut S, &mut BytesMut, &mut E)| #[trigger]
            call_ensures(WebSocket::<S, E>::connection_mut, (lending,), parts) ==> {
                &&& *parts.0 == lending.spec_framed().spec_stream()
                &&& *parts.1 == lending.spec_framed().spec_read_buffer()
                &&& *parts.2 == lending.spec_extension()
                &&& final(lending).spec_framed().spec_stream() == *final(parts.0)
                &&& final(lending).spec_framed().spec_read_buffer() == *final(parts.1)
                &&& final(lending).spec_extension() == *final(parts.2)
                &&& final(lending).spec_framed().spec_framing()
                    == lending.spec_framed().spec_framing()
                &&& final(lending)@.closed == lending@.closed
                &&& final(lending)@.control == lending@.control
            },
{
}

/// A WebSocket starts out open and without a ping to remember, with the stream, the left-over bytes,
/// the role, the message limit and the extension that it was given, and with the reserved bits that
/// the extension laid claim to when it was asked.
pub proof fn how_a_socket_starts<S, E: Extension>(
    config: WebSocketConfig,
    stream: S,
    extension: E,
    read_buffer: BytesMut,
    given: Role,
    socket: WebSocket<S, E>,
    closed: bool,
    control_buffer: &BytesMut,
    role: Role,
    framing: Framing,
)
    requires
        call_ensures(
            WebSocket::<S, E>::from_upgraded,
            (config, stream, extension, read_buffer, given),
            socket,
        ),
        call_ensures(WebSocket::<S, E>::is_closed, (&socket,), closed),
        call_ensures(WebSocket::<S, E>::control_buffer, (&socket,), control_buffer),
        call_ensures(WebSocket::<S, E>::role, (&socket,), role),
        call_ensures(WebSocket::<S, E>::framing, (&socket,), framing),
    ensures
        !closed,
        buffered(*control_buffer).len() == 0,
        role == given,
        framing.role == given,
        framing.max_message_size == config.max_message_size,
        call_ensures(E::bits, (&extension,), framing.ext_bits),
        socket.spec_framed().spec_stream() == stream,
        socket.spec_framed().spec_read_buffer() == read_buffer,
        socket.spec_extension() == extension,
{
}

/// A WebSocket made of parts is observed to have those parts, and is closed if and only if it was
/// made so.
pub proof fn how_a_socket_is_made_of_parts<S, E>(
    framed: FramedIo<S>,
    control_buffer: BytesMut,
    extension: E,
    given: bool,
    socket: WebSocket<S, E>,
    closed: bool,
    observed: &BytesMut,
    framing: Framing,
    framing_given: Framing,
)
    requires
        call_ensures(
            WebSocket::<S, E>::from_parts,
            (framed, control_buffer, extension, given),
            socket,
        ),
        call_ensures(WebSocket::<S, E>::is_closed, (&socket,), closed),
        call_ensures(WebSocket::<S, E>::control_buffer, (&socket,), observed),
        call_ensures(WebSocket::<S, E>::framing, (&socket,), framing),
        call_ensures(FramedIo::<S>::framing, (&framed,), framing_given),
    ensures
        closed == given,
        *observed == control_buffer,
        framing == framing_given,
        socket.spec_framed() == framed,
        socket.spec_extension() == extension,
        socket@.closed == given,
        socket@.control == buffered(control_buffer),
{
}

/// An open WebSocket is split into exactly what it is made of, and a closed one is refused because
/// it is closed.
pub proof fn what_a_socket_is_split_into<S, E>(
    socket: WebSocket<S, E>,
    control_buffer: &BytesMut,
    result: Result<SplitSocket<S, E>, Error>,
)
    requires
        call_ensures(WebSocket::<S, E>::control_buffer, (&socket,), control_buffer),
        call_ensures(WebSocket::<S, E>::split, (socket,), result),
    ensures
        socket@.closed ==> result == Err::<SplitSocket<S, E>, Error>(
            Error { kind: ErrorKind::Close, cause: Cause::CloseError },
        ),
        !socket@.closed ==> {
            &&& result matches Ok(parts)
            &&& parts.framed == socket.spec_framed()
            &&& parts.control_buffer == *control_buffer
            &&& buffered(parts.control_buffer) == socket@.control
            &&& parts.extension == socket.spec_extension()
        },
{
}

/// What the framing layer is set up with is what is observed of it and what it is lent.
pub proof fn how_the_framing_is_set_up<S>(
    stream: S,
    read_buffer: BytesMut,
    role: Role,
    max_message_size: usize,
    ext_bits: RsvBits,
    framed: FramedIo<S>,
    framing: Framing,
    server: bool,
)
    requires
        call_ensures(
            FramedIo::<S>::new,
            (stream, read_buffer, role, max_message_size, ext_bits),
            framed,
        ),
        call_ensures(FramedIo::<S>::framing, (&framed,), framing),
        call_ensures(FramedIo::<S>::is_server, (&framed,), server),
    ensures
        framing.role == role,
        framing.max_message_size == max_message_size,
        framing.ext_bits == ext_bits,
        server == (role == Role::Server),
        framed.spec_stream() == stream,
        framed.spec_read_buffer() == read_buffer,
        forall|lending: &mut FramedIo<S>, io: (&mut S, &mut BytesMut)| #[trigger]
            call_ensures(FramedIo::<S>::io_mut, (lending,), io) ==> {
                &&& *io.0 == lending.spec_stream()
                &&& *io.1 == lending.spec_read_buffer()
                &&& final(lending).spec_stream() == *final(io.0)
                &&& final(lending).spec_read_buffer() == *final(io.1)
                &&& final(lending).spec_framing() == lending.spec_framing()
            },
{
}

/// Encoding a frame is one call of the encoder with the payload and the header: what that call
/// leaves of them is what is left. Its success is success, and its failure is an error of the
/// extension with the encoder's own words.
pub proof fn encoding_is_one_call<E: ExtensionEncoder>()
    ensures
        forall|
            extension: &mut E,
            buf: &mut BytesMut,
            header: &mut FrameHeader,
            result: Result<(), Error>,
        | #[trigger]
            call_ensures(extension_encode::<E>, (extension, buf, header), result) ==> exists|
                encoder: &mut E,
                payload: &mut BytesMut,
                head: &mut FrameHeader,
                outcome: Result<(), String>,
            |
                {
                    &&& #[trigger] call_ensures(E::encode, (encoder, payload, head), outcome)
                    &&& *encoder == *extension
                    &&& *payload == *buf
                    &&& *head == *header
                    &&& *final(encoder) == *final(extension)
                    &&& *final(payload) == *final(buf)
                    &&& *final(head) == *final(header)
                    &&& match outcome {
                        Ok(()) => result == Ok::<(), Error>(()),
                        Err(description) => result == Err::<(), Error>(
                            Error {
                                kind: ErrorKind::Extension,
                                cause: Cause::Description(description),
                            },
                        ),
                    }
                },
{
}

/// The outcome of an encoder is told as it is: a success, or an error of the extension in the
/// encoder's own words.
pub proof fn an_encoding_is_told_as_it_is(
    outcome: Result<(), String>,
    result: Result<(), Error>,
    bits: RsvBits,
)
    requires
        call_ensures(encoded, (outcome,), result),
        call_ensures(<NoExt as Extension>::bits, (&NoExt,), bits),
    ensures
        outcome is Ok ==> result == Ok::<(), Error>(()),
        outcome matches Err(description) ==> result == Err::<(), Error>(
            Error { kind: ErrorKind::Extension, cause: Cause::Description(description) },
        ),
        !bits.rsv1 && !bits.rsv2 && !bits.rsv3,
{
}

/// An error says of itself what it was made with, and a close reason is made of what it is given,
/// as is its copy.
pub proof fn values_are_what_they_are_made_of(
    kind: ErrorKind,
    cause: Cause,
    error: Error,
    io: bool,
    protocol: bool,
    code: CloseCode,
    description: Option<String>,
    reason: CloseReason,
    copy: CloseReason,
)
    requires
        call_ensures(Error::with_cause, (kind, cause), error),
        call_ensures(Error::is_io, (&error,), io),
        call_ensures(Error::is_protocol, (&error,), protocol),
        call_ensures(CloseReason::new, (code, description), reason),
        call_ensures(CloseReason::clone, (&reason,), copy),
    ensures
        error.kind == kind,
        error.cause == cause,
        io == (kind == ErrorKind::IO),
        protocol == (kind == ErrorKind::Protocol),
        reason.code == code,
        reason.description == description,
        copy == reason,
{
}

} // verus!
