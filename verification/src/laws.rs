//! What holds of a session as a whole.

use crate::buffer::buffered;
use crate::delivery::{after_reading, handed_up, handed_up_for_one, Handed};
use crate::errors::{close_error, Cause, Error, ErrorKind, ProtocolError};
use crate::ext::{extension_encode, extension_error, spec_encoded, Extension, FrameHeader, NoExt};
use crate::framed::{Coding, Frame, ItemView};
use crate::protocol::{
    CloseCode, CloseReason, ControlCode, MessageType, MessageView, PayloadType, Role,
    WebSocketConfig,
};
use crate::session::{
    control_frame, ReadAction, ReadActionView, ReadEvent, ReadEventView, ReplyView, Session,
    Written,
};
use crate::ws::{SplitSocket, WebSocket};
use bytes::BytesMut;
use vstd::prelude::*;

verus! {

/// No operation reopens a session that is over.
pub proof fn closed_is_final(
    session: Session,
    event: ReadEventView,
    payload: Seq<u8>,
    message_type: PayloadType,
    written: Written,
    outcome: Result<(), Error>,
)
    requires
        session.closed,
    ensures
        session.after_read(event).closed,
        session.after_write(payload, message_type).closed,
        session.after_written(written, outcome).closed,
        session.over().closed,
{
}

/// A session that is over refuses to read and to write, always with the same error, and is left as
/// it was.
pub proof fn closed_refuses(
    session: Session,
    payload: Seq<u8>,
    payload_type: PayloadType,
    message_type: MessageType,
    size: nat,
)
    requires
        session.closed,
    ensures
        session.read_action(ReadEventView::Start) == ReadActionView::Return(Err(close_error())),
        session.after_read(ReadEventView::Start) == session,
        session.write_result(payload, payload_type) == Err::<Frame<Seq<u8>>, Error>(close_error()),
        session.after_write(payload, payload_type) == session,
        session.fragments_result(payload, message_type, size) == Err::<
            Seq<Frame<Seq<u8>>>,
            Error,
        >(close_error()),
{
}

/// What ends a session: a close that comes in, a failure to receive, a payload that could not be
/// written, or the caller. Nothing else does.
pub proof fn what_ends_a_session(
    session: Session,
    event: ReadEventView,
    payload: Seq<u8>,
    message_type: PayloadType,
    written: Written,
    outcome: Result<(), Error>,
)
    requires
        !session.closed,
    ensures
        session.after_read(event).closed <==> (event is Failed || event matches
            ReadEventView::Received(ItemView::Close(_))),
        !session.after_write(payload, message_type).closed,
        session.after_written(written, outcome).closed <==> (written is Payload && outcome is Err),
        session.over().closed,
{
}

/// The ping that a session remembers always fits in a control frame.
pub proof fn remembered_ping_fits(
    session: Session,
    event: ReadEventView,
    payload: Seq<u8>,
    message_type: PayloadType,
    written: Written,
    outcome: Result<(), Error>,
)
    requires
        session.wf(),
    ensures
        Session::fresh().wf(),
        session.after_read(event).wf(),
        session.after_write(payload, message_type).wf(),
        session.after_written(written, outcome).wf(),
        session.over().wf(),
{
}

/// A read comes to an end: it receives at most one item, writes at most one reply, and returns.
pub proof fn read_ends(
    session: Session,
    item: ItemView,
    error: Error,
    text: String,
    result: Result<MessageView, Error>,
    outcome: Result<(), Error>,
)
    ensures
        session.read_action(ReadEventView::Start) !is Reply,
        session.read_action(ReadEventView::Received(item)) !is Receive,
        session.read_action(ReadEventView::Failed { error, text }) !is Receive,
        session.read_action(ReadEventView::Replied { result, outcome }) is Return,
{
}

/// What a read has come to when it is over.
pub struct ReadRun {
    /// The session that it leaves.
    pub session: Session,
    /// What it had the framing layer write.
    pub written: Option<ReplyView>,
    /// What it returned.
    pub result: Result<MessageView, Error>,
}

/// A read from start to end, where `received` is what the framing layer comes back with when it is
/// to receive, and `outcome` is how it goes when it is to write.
pub open spec fn run_read(
    session: Session,
    received: ReadEventView,
    outcome: Result<(), Error>,
) -> ReadRun {
    match session.read_action(ReadEventView::Start) {
        ReadActionView::Return(result) => ReadRun {
            session: session.after_read(ReadEventView::Start),
            written: None,
            result,
        },
        _ => {
            let started = session.after_read(ReadEventView::Start);
            let informed = started.after_read(received);
            match started.read_action(received) {
                ReadActionView::Reply { reply, result } => {
                    let replied = ReadEventView::Replied { result, outcome };
                    ReadRun {
                        session: informed.after_read(replied),
                        written: Some(reply),
                        result: informed.read_action(replied)->Return_0,
                    }
                },
                action => ReadRun {
                    session: informed,
                    written: None,
                    result: action->Return_0,
                },
            }
        },
    }
}

/// The result of a read that had something to write: what it would return, unless writing failed.
pub open spec fn unless_failed(
    result: Result<MessageView, Error>,
    outcome: Result<(), Error>,
) -> Result<MessageView, Error> {
    match outcome {
        Ok(()) => result,
        Err(error) => Err(error),
    }
}

/// What a read comes to, from start to end, for everything that can come in and however writing
/// goes.
pub proof fn what_a_read_comes_to(
    session: Session,
    item: ItemView,
    error: Error,
    text: String,
    outcome: Result<(), Error>,
)
    ensures
        ({
            let run = run_read(session, ReadEventView::Received(item), outcome);
            if session.closed {
                run == (ReadRun { session, written: None, result: Err(close_error()) })
            } else {
                match item {
                    ItemView::Text => run == (ReadRun {
                        session,
                        written: None,
                        result: Ok(MessageView::Text),
                    }),
                    ItemView::Binary => run == (ReadRun {
                        session,
                        written: None,
                        result: Ok(MessageView::Binary),
                    }),
                    ItemView::Ping(payload) => run == (ReadRun {
                        session,
                        written: Some(ReplyView::Frame(control_frame(ControlCode::Pong, payload))),
                        result: unless_failed(Ok(MessageView::Ping(payload)), outcome),
                    }),
                    ItemView::Pong(payload) => run == (ReadRun {
                        session: Session { control: Seq::empty(), ..session },
                        written: None,
                        result: Ok(MessageView::Pong(payload)),
                    }),
                    ItemView::Close(None) => run == (ReadRun {
                        session: session.over(),
                        written: Some(
                            ReplyView::Frame(control_frame(ControlCode::Close, Seq::empty())),
                        ),
                        result: unless_failed(Ok(MessageView::Close(None)), outcome),
                    }),
                    ItemView::Close(Some(reason)) => run == (ReadRun {
                        session: session.over(),
                        written: Some(ReplyView::Close(reason)),
                        result: unless_failed(Ok(MessageView::Close(Some(reason))), outcome),
                    }),
                }
            }
        }),
        ({
            let run = run_read(session, ReadEventView::Failed { error, text }, outcome);
            if session.closed {
                run == (ReadRun { session, written: None, result: Err(close_error()) })
            } else if error.kind == ErrorKind::IO {
                run == (ReadRun { session: session.over(), written: None, result: Err(error) })
            } else {
                run == (ReadRun {
                    session: session.over(),
                    written: Some(
                        ReplyView::Close(
                            CloseReason { code: CloseCode::Protocol, description: Some(text) },
                        ),
                    ),
                    result: unless_failed(Err(error), outcome),
                })
            }
        }),
{
}

/// A reply that could not be written is what the read fails with, whatever it would have returned.
pub proof fn failed_reply_prevails(
    session: Session,
    result: Result<MessageView, Error>,
    error: Error,
)
    ensures
        session.read_action(ReadEventView::Replied { result, outcome: Err(error) })
            == ReadActionView::Return(Err(error)),
        session.after_read(ReadEventView::Replied { result, outcome: Err(error) }) == session,
{
}

/// What a write that is not refused comes to, however writing goes: a ping is remembered even if it
/// could not be written, and the session goes on if and only if the frame was written.
pub proof fn what_a_write_comes_to(
    session: Session,
    payload: Seq<u8>,
    message_type: PayloadType,
    outcome: Result<(), Error>,
)
    requires
        !session.closed,
        message_type == PayloadType::Ping || message_type == PayloadType::Pong ==> payload.len()
            <= 125,
    ensures
        session.after_write(payload, message_type).after_written(Written::Payload, outcome)
            == (Session {
            control: if message_type is Ping {
                payload
            } else {
                session.control
            },
            closed: outcome is Err,
        }),
{
}

/// A ping is answered by a pong with the same payload. It is then returned, and the session goes on
/// as if it had not come in.
pub proof fn ping_is_answered(session: Session, payload: Seq<u8>)
    ensures
        session.read_action(ReadEventView::Received(ItemView::Ping(payload)))
            == (ReadActionView::Reply {
            reply: ReplyView::Frame(control_frame(ControlCode::Pong, payload)),
            result: Ok(MessageView::Ping(payload)),
        }),
        session.after_read(ReadEventView::Received(ItemView::Ping(payload))) == session,
        session.read_action(
            ReadEventView::Replied { result: Ok(MessageView::Ping(payload)), outcome: Ok(()) },
        ) == ReadActionView::Return(Ok(MessageView::Ping(payload))),
{
}

/// A pong is returned whether or not a ping is remembered, and has the session forget that ping.
pub proof fn pong_settles_ping(session: Session, payload: Seq<u8>)
    ensures
        session.read_action(ReadEventView::Received(ItemView::Pong(payload)))
            == ReadActionView::Return(Ok(MessageView::Pong(payload))),
        session.after_read(ReadEventView::Received(ItemView::Pong(payload))) == (Session {
            control: Seq::empty(),
            closed: session.closed,
        }),
        session.control.len() == 0 ==> session.after_read(
            ReadEventView::Received(ItemView::Pong(payload)),
        ) == session,
{
    if session.control.len() == 0 {
        assert(session.control =~= Seq::empty());
    }
}

/// A control frame that is too long is refused as a breach of the protocol, and the session goes on
/// as it was. One that is not too long is never refused for its length, nor is any message.
pub proof fn long_control_frames_are_refused(
    session: Session,
    payload: Seq<u8>,
    message_type: PayloadType,
)
    requires
        !session.closed,
    ensures
        (message_type == PayloadType::Ping || message_type == PayloadType::Pong) && payload.len()
            > 125 ==> {
            &&& session.write_result(payload, message_type) == Err::<Frame<Seq<u8>>, Error>(
                Error {
                    kind: ErrorKind::Protocol,
                    cause: Cause::ProtocolError(ProtocolError::FrameOverflow),
                },
            )
            &&& session.after_write(payload, message_type) == session
        },
        message_type == PayloadType::Text || message_type == PayloadType::Binary || payload.len()
            <= 125 ==> session.write_result(payload, message_type) is Ok,
{
}

/// A payload is written whole, in the last frame of its message, by way of the extension. What a
/// read writes goes past the extension.
pub proof fn who_meets_the_extension(
    session: Session,
    payload: Seq<u8>,
    message_type: PayloadType,
    event: ReadEventView,
)
    ensures
        session.write_result(payload, message_type) matches Ok(frame) ==> {
            &&& frame.payload == payload
            &&& frame.flags.fin
            &&& frame.coding == Coding::Extension
        },
        session.read_action(event) matches ReadActionView::Reply {
            reply: ReplyView::Frame(frame),
            ..
        } ==> frame.flags.fin && frame.coding == Coding::Plain,
{
}

/// A failure to receive ends the session and is what the read fails with. The peer is told what
/// went wrong, as a breach of the protocol, unless it is the stream that failed.
pub proof fn failure_is_told(session: Session, error: Error, text: String)
    ensures
        ({
            let failed = ReadEventView::Failed { error, text };
            &&& session.after_read(failed).closed
            &&& session.after_read(failed).control == session.control
            &&& error.kind == ErrorKind::IO ==> session.read_action(failed)
                == ReadActionView::Return(Err(error))
            &&& error.kind != ErrorKind::IO ==> session.read_action(failed)
                == (ReadActionView::Reply {
                reply: ReplyView::Close(
                    CloseReason { code: CloseCode::Protocol, description: Some(text) },
                ),
                result: Err(error),
            })
        }),
{
}

/// A close is answered in kind: with the reason that came in, or with an empty close frame where
/// none did. It is then returned, and no further read or write is admitted.
pub proof fn close_is_answered(
    session: Session,
    reason: Option<CloseReason>,
    payload: Seq<u8>,
    message_type: PayloadType,
)
    ensures
        ({
            let close_in = ReadEventView::Received(ItemView::Close(reason));
            let ended = session.after_read(close_in);
            &&& session.read_action(close_in) matches ReadActionView::Reply { reply, result }
            &&& result == Ok::<MessageView, Error>(MessageView::Close(reason))
            &&& match reason {
                Some(given) => reply == ReplyView::Close(given),
                None => reply matches ReplyView::Frame(frame) && handed_up(seq![frame]) == seq![
                    Handed { item: ItemView::Close(None), buffer: Seq::empty() },
                ],
            }
            &&& ended.read_action(ReadEventView::Start) == ReadActionView::Return(
                Err(close_error()),
            )
            &&& ended.write_result(payload, message_type) == Err::<Frame<Seq<u8>>, Error>(
                close_error(),
            )
        }),
{
    let frame = control_frame(ControlCode::Close, Seq::empty());
    handed_up_for_one(frame);
    assert(handed_up(seq![frame]) =~= seq![
        Handed { item: ItemView::Close(None), buffer: Seq::empty() },
    ]);
}

/// A message that is no longer than a fragment is written as it would be without fragments: in a
/// single frame that holds all of it.
pub proof fn short_message_is_one_frame(
    session: Session,
    payload: Seq<u8>,
    message_type: MessageType,
    size: nat,
)
    requires
        !session.closed,
        payload.len() <= size,
    ensures
        session.fragments_result(payload, message_type, size) matches Ok(frames) && frames.len()
            == 1 && session.write_result(
            payload,
            match message_type {
                MessageType::Text => PayloadType::Text,
                MessageType::Binary => PayloadType::Binary,
            },
        ) == Ok::<Frame<Seq<u8>>, Error>(frames[0]),
{
}

/// A WebSocket can be split if and only if it is open, and the parts that it is split into make up
/// the same WebSocket again.
pub proof fn split_is_undone<S, E>(
    socket: WebSocket<S, E>,
    result: Result<SplitSocket<S, E>, Error>,
    rejoined: WebSocket<S, E>,
)
    requires
        call_ensures(WebSocket::<S, E>::split, (socket,), result),
        result matches Ok(parts) ==> call_ensures(
            WebSocket::<S, E>::from_parts,
            (parts.framed, parts.control_buffer, parts.extension, false),
            rejoined,
        ),
    ensures
        result is Ok <==> !socket@.closed,
        result is Err ==> result->Err_0 == close_error(),
        result is Ok ==> rejoined@ == socket@ && rejoined.same_connection(socket)
            && rejoined.spec_control_buffer() == socket.spec_control_buffer(),
{
}

/// A WebSocket has the role that it was given, for as long as nothing changes its role. That nothing
/// does is what `settings_are_kept` says.
pub proof fn role_is_kept<S, E: Extension>(
    config: WebSocketConfig,
    stream: S,
    extension: E,
    read_buffer: BytesMut,
    given: Role,
    socket: WebSocket<S, E>,
    later: WebSocket<S, E>,
    role: Role,
)
    requires
        call_ensures(
            WebSocket::<S, E>::from_upgraded,
            (config, stream, extension, read_buffer, given),
            socket,
        ),
        later.spec_framing().role == socket.spec_framing().role,
        call_ensures(WebSocket::<S, E>::role, (&later,), role),
    ensures
        role == given,
        !socket@.closed,
        socket@.control.len() == 0,
{
}

/// No operation on a WebSocket changes its role or any other setting of its framing. Nor does
/// anything that the framing layer does with the parts that it is lent.
pub proof fn settings_are_kept<S, E>()
    ensures
        forall|socket: &mut WebSocket<S, E>, event: ReadEvent, action: ReadAction| #[trigger]
            call_ensures(WebSocket::<S, E>::read, (socket, event), action)
                ==> final(socket).spec_framing() == socket.spec_framing(),
        forall|
            socket: &mut WebSocket<S, E>,
            buf: &[u8],
            message_type: PayloadType,
            result: Result<Frame<&[u8]>, Error>,
        | #[trigger]
            call_ensures(WebSocket::<S, E>::write, (socket, buf, message_type), result)
                ==> final(socket).spec_framing() == socket.spec_framing(),
        forall|socket: &mut WebSocket<S, E>, data: &str, result: Result<Frame<&[u8]>, Error>| #[trigger]
            call_ensures(WebSocket::<S, E>::write_text, (socket, data), result)
                ==> final(socket).spec_framing() == socket.spec_framing(),
        forall|socket: &mut WebSocket<S, E>, data: &[u8], result: Result<Frame<&[u8]>, Error>| #[trigger]
            call_ensures(WebSocket::<S, E>::write_binary, (socket, data), result)
                ==> final(socket).spec_framing() == socket.spec_framing(),
        forall|socket: &mut WebSocket<S, E>, data: &[u8], result: Result<Frame<&[u8]>, Error>| #[trigger]
            call_ensures(WebSocket::<S, E>::write_ping, (socket, data), result)
                ==> final(socket).spec_framing() == socket.spec_framing(),
        forall|socket: &mut WebSocket<S, E>, data: &[u8], result: Result<Frame<&[u8]>, Error>| #[trigger]
            call_ensures(WebSocket::<S, E>::write_pong, (socket, data), result)
                ==> final(socket).spec_framing() == socket.spec_framing(),
        forall|
            socket: &mut WebSocket<S, E>,
            written: Written,
            outcome: Result<(), Error>,
            result: Result<(), Error>,
        | #[trigger]
            call_ensures(WebSocket::<S, E>::finish_write, (socket, written, outcome), result)
                ==> final(socket).spec_framing() == socket.spec_framing(),
        forall|socket: &mut WebSocket<S, E>, reason: Option<String>, close: CloseReason| #[trigger]
            call_ensures(WebSocket::<S, E>::close, (socket, reason), close)
                ==> final(socket).spec_framing() == socket.spec_framing(),
        forall|socket: &mut WebSocket<S, E>, reason: CloseReason, close: CloseReason| #[trigger]
            call_ensures(WebSocket::<S, E>::close_with, (socket, reason), close)
                ==> final(socket).spec_framing() == socket.spec_framing(),
        forall|socket: &mut WebSocket<S, E>, parts: (&mut S, &mut BytesMut, &mut E)| #[trigger]
            call_ensures(WebSocket::<S, E>::connection_mut, (socket,), parts)
                ==> final(socket).spec_framing() == socket.spec_framing(),
{
}

/// The bytes that have been received and that the framing layer has not yet read.
pub open spec fn received<S, E>(socket: WebSocket<S, E>) -> Seq<u8> {
    buffered(socket.spec_framed().spec_read_buffer())
}

/// The bytes that have been received before a session begins stay as they were given, whatever is
/// read, written or closed, until the framing layer takes them: they are what it is lent.
pub proof fn received_bytes_are_kept<S, E: Extension>()
    ensures
        forall|socket: &mut WebSocket<S, E>, event: ReadEvent, action: ReadAction| #[trigger]
            call_ensures(WebSocket::<S, E>::read, (socket, event), action)
                ==> final(socket).spec_framed().spec_read_buffer()
                == socket.spec_framed().spec_read_buffer(),
        forall|
            socket: &mut WebSocket<S, E>,
            buf: &[u8],
            message_type: PayloadType,
            result: Result<Frame<&[u8]>, Error>,
        | #[trigger]
            call_ensures(WebSocket::<S, E>::write, (socket, buf, message_type), result)
                ==> final(socket).spec_framed().spec_read_buffer()
                == socket.spec_framed().spec_read_buffer(),
        forall|socket: &mut WebSocket<S, E>, data: &str, result: Result<Frame<&[u8]>, Error>| #[trigger]
            call_ensures(WebSocket::<S, E>::write_text, (socket, data), result)
                ==> final(socket).spec_framed().spec_read_buffer()
                == socket.spec_framed().spec_read_buffer(),
        forall|socket: &mut WebSocket<S, E>, data: &[u8], result: Result<Frame<&[u8]>, Error>| #[trigger]
            call_ensures(WebSocket::<S, E>::write_binary, (socket, data), result)
                ==> final(socket).spec_framed().spec_read_buffer()
                == socket.spec_framed().spec_read_buffer(),
        forall|socket: &mut WebSocket<S, E>, data: &[u8], result: Result<Frame<&[u8]>, Error>| #[trigger]
            call_ensures(WebSocket::<S, E>::write_ping, (socket, data), result)
                ==> final(socket).spec_framed().spec_read_buffer()
                == socket.spec_framed().spec_read_buffer(),
        forall|socket: &mut WebSocket<S, E>, data: &[u8], result: Result<Frame<&[u8]>, Error>| #[trigger]
            call_ensures(WebSocket::<S, E>::write_pong, (socket, data), result)
                ==> final(socket).spec_framed().spec_read_buffer()
                == socket.spec_framed().spec_read_buffer(),
        forall|
            socket: &mut WebSocket<S, E>,
            written: Written,
            outcome: Result<(), Error>,
            result: Result<(), Error>,
        | #[trigger]
            call_ensures(WebSocket::<S, E>::finish_write, (socket, written, outcome), result)
                ==> final(socket).spec_framed().spec_read_buffer()
                == socket.spec_framed().spec_read_buffer(),
        forall|socket: &mut WebSocket<S, E>, reason: Option<String>, close: CloseReason| #[trigger]
            call_ensures(WebSocket::<S, E>::close, (socket, reason), close)
                ==> final(socket).spec_framed().spec_read_buffer()
                == socket.spec_framed().spec_read_buffer(),
        forall|socket: &mut WebSocket<S, E>, reason: CloseReason, close: CloseReason| #[trigger]
            call_ensures(WebSocket::<S, E>::close_with, (socket, reason), close)
                ==> final(socket).spec_framed().spec_read_buffer()
                == socket.spec_framed().spec_read_buffer(),
        forall|
            config: WebSocketConfig,
            stream: S,
            extension: E,
            read_buffer: BytesMut,
            role: Role,
            socket: WebSocket<S, E>,
        | #[trigger]
            call_ensures(
                WebSocket::<S, E>::from_upgraded,
                (config, stream, extension, read_buffer, role),
                socket,
            ) ==> socket.spec_framed().spec_read_buffer() == read_buffer,
        forall|socket: &mut WebSocket<S, E>, parts: (&mut S, &mut BytesMut, &mut E)| #[trigger]
            call_ensures(WebSocket::<S, E>::connection_mut, (socket,), parts) ==> {
                &&& *parts.1 == socket.spec_framed().spec_read_buffer()
                &&& final(socket).spec_framed().spec_read_buffer() == *final(parts.1)
            },
{
}

/// All that the framing layer is still to read: the bytes that have been received, and then the
/// bytes `to_come` that the stream will deliver.
pub open spec fn incoming<S, E>(socket: WebSocket<S, E>, to_come: Seq<u8>) -> Seq<u8> {
    received(socket) + to_come
}

/// Bytes that are left over from the handshake come first, and none is lost, repeated or moved: a
/// WebSocket that is given them in its read buffer has the same bytes to read as one that is given
/// an empty read buffer and a stream that will deliver them before all else. So whatever frames the
/// framing layer makes of those bytes, both are handed up the same items, and come to the same
/// state.
pub proof fn left_over_bytes_come_first<S, E: Extension>(
    config: WebSocketConfig,
    stream: S,
    extension: E,
    left_over: BytesMut,
    role: Role,
    socket: WebSocket<S, E>,
    other_stream: S,
    nothing: BytesMut,
    other: WebSocket<S, E>,
    to_come: Seq<u8>,
    frames_of: spec_fn(Seq<u8>) -> Seq<Frame<Seq<u8>>>,
)
    requires
        call_ensures(
            WebSocket::<S, E>::from_upgraded,
            (config, stream, extension, left_over, role),
            socket,
        ),
        call_ensures(
            WebSocket::<S, E>::from_upgraded,
            (config, other_stream, extension, nothing, role),
            other,
        ),
        buffered(nothing).len() == 0,
    ensures
        incoming(socket, to_come) == buffered(left_over) + to_come,
        incoming(other, buffered(left_over) + to_come) == incoming(socket, to_come),
        handed_up(frames_of(incoming(other, buffered(left_over) + to_come))) == handed_up(
            frames_of(incoming(socket, to_come)),
        ),
        after_reading(
            other@,
            handed_up(frames_of(incoming(other, buffered(left_over) + to_come))),
        ) == after_reading(socket@, handed_up(frames_of(incoming(socket, to_come)))),
{
    assert(buffered(nothing) + (buffered(left_over) + to_come) =~= buffered(left_over) + to_come);
}

/// What the framing layer does to the bytes that it is lent keeps their order: bytes that it takes
/// from the stream to add to those received leave all that is to be read as it was, and bytes that
/// it takes off the front are those that came first.
pub proof fn bytes_stay_in_order<S, E>(
    before: WebSocket<S, E>,
    after: WebSocket<S, E>,
    to_come: Seq<u8>,
    n: int,
)
    ensures
        0 <= n <= to_come.len() && received(after) == received(before) + to_come.take(n)
            ==> incoming(after, to_come.skip(n)) == incoming(before, to_come),
        0 <= n <= received(before).len() && received(after) == received(before).skip(n)
            ==> incoming(after, to_come) == incoming(before, to_come).skip(n),
{
    if 0 <= n <= to_come.len() && received(after) == received(before) + to_come.take(n) {
        assert(incoming(after, to_come.skip(n)) =~= incoming(before, to_come));
    }
    if 0 <= n <= received(before).len() && received(after) == received(before).skip(n) {
        assert(incoming(after, to_come) =~= incoming(before, to_come).skip(n));
    }
}

/// The extension that does nothing never fails, and leaves the frame as it was.
pub proof fn no_extension_no_change()
    ensures
        forall|
            extension: &mut NoExt,
            buf: &mut BytesMut,
            header: &mut FrameHeader,
            result: Result<(), Error>,
        | #[trigger]
            call_ensures(extension_encode::<NoExt>, (extension, buf, header), result) ==> {
                &&& result == Ok::<(), Error>(())
                &&& *final(buf) == *buf
                &&& *final(header) == *header
            },
{
}

/// An encoder's failure, and nothing else, is an error, and one of the extension.
pub proof fn only_the_encoder_fails(outcome: Result<(), String>)
    ensures
        spec_encoded(outcome) is Err <==> outcome is Err,
        outcome matches Err(description) ==> spec_encoded(outcome) == Err::<(), Error>(
            extension_error(description),
        ),
        outcome matches Err(description) ==> extension_error(description).kind
            == ErrorKind::Extension,
{
}

} // verus!
