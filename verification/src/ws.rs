//! The WebSocket.

use crate::buffer::buffered;
use crate::errors::{close_error, Cause, Error, ErrorKind, ProtocolError};
use crate::ext::Extension;
use crate::framed::{Coding, Frame, FramedIo, Framing, Item};
use crate::protocol::{
    CloseCode, CloseReason, ControlCode, DataCode, HeaderFlags, Message, MessageType, OpCode,
    PayloadType, Role, WebSocketConfig, CONTROL_MAX_SIZE,
};
use crate::session::{fragments, ReadAction, ReadEvent, Reply, Session, Written};
use bytes::BytesMut;
use vstd::prelude::*;
use vstd::slice::slice_subrange;

verus! {

/// An upgraded WebSocket, over a stream that has executed a handshake.
///
/// The WebSocket decides and the framing layer acts. An operation that has something read or
/// written returns what is to be done, and is told afterwards how it went.
#[derive(Debug)]
pub struct WebSocket<S, E> {
    framed: FramedIo<S>,
    control_buffer: BytesMut,
    extension: E,
    closed: bool,
}

/// What a WebSocket is split into.
#[derive(Debug)]
pub struct SplitSocket<S, E> {
    pub framed: FramedIo<S>,
    pub control_buffer: BytesMut,
    pub extension: E,
}

impl<S, E> View for WebSocket<S, E> {
    type V = Session;

    open spec fn view(&self) -> Session {
        Session { control: buffered(self.spec_control_buffer()), closed: self.spec_closed() }
    }
}

/// The frame that a write gives, by the bytes that it holds.
pub open spec fn frame_view(result: Result<Frame<&[u8]>, Error>) -> Result<Frame<Seq<u8>>, Error> {
    match result {
        Ok(frame) => Ok(frame@),
        Err(error) => Err(error),
    }
}

/// Frames, by the bytes that they hold.
pub open spec fn frames_view(frames: Seq<Frame<&[u8]>>) -> Seq<Frame<Seq<u8>>> {
    Seq::new(frames.len(), |i: int| frames[i]@)
}

impl<S, E> WebSocket<S, E> {
    /// The stream and the settings of its framing.
    pub closed spec fn spec_framed(self) -> FramedIo<S> {
        self.framed
    }

    /// The settings of the framing layer, the role among them.
    pub open spec fn spec_framing(self) -> Framing {
        self.spec_framed().spec_framing()
    }

    /// The extension.
    pub closed spec fn spec_extension(self) -> E {
        self.extension
    }

    /// The buffer that holds the payload of the last ping.
    pub closed spec fn spec_control_buffer(self) -> BytesMut {
        self.control_buffer
    }

    /// Whether the session is over.
    pub closed spec fn spec_closed(self) -> bool {
        self.closed
    }

    /// Whether two WebSockets have the same stream, bytes received, settings and extension.
    pub open spec fn same_connection(self, other: Self) -> bool {
        &&& self.spec_framed() == other.spec_framed()
        &&& self.spec_extension() == other.spec_extension()
    }

    /// A WebSocket made of the parts of another.
    pub fn from_parts(
        framed: FramedIo<S>,
        control_buffer: BytesMut,
        extension: E,
        closed: bool,
    ) -> (socket: WebSocket<S, E>)
        ensures
            socket.spec_framed() == framed,
            socket.spec_control_buffer() == control_buffer,
            socket.spec_extension() == extension,
            socket@ == (Session { control: buffered(control_buffer), closed }),
    {
        WebSocket { framed, control_buffer, extension, closed }
    }

    /// The role of this WebSocket.
    pub fn role(&self) -> (role: Role)
        ensures
            role == self.spec_framing().role,
    {
        if self.framed.is_server() {
            Role::Server
        } else {
            Role::Client
        }
    }

    /// Moves a read along, from `ReadEvent::Start` to `ReadAction::Return`.
    ///
    /// A ping is answered by a pong before it is returned. A close is answered by a close, and ends
    /// the session, as a failure does.
    pub fn read(&mut self, event: ReadEvent) -> (action: ReadAction)
        ensures
            final(self)@ == old(self)@.after_read(event@),
            action@ == old(self)@.read_action(event@),
            final(self).same_connection(*old(self)),
    {
        match event {
            ReadEvent::Start => {
                if self.closed {
                    ReadAction::Return(
                        Err(Error::with_cause(ErrorKind::Close, Cause::CloseError)),
                    )
                } else {
                    ReadAction::Receive
                }
            },
            ReadEvent::Received(item) => match item {
                Item::Binary => ReadAction::Return(Ok(Message::Binary)),
                Item::Text => ReadAction::Return(Ok(Message::Text)),
                Item::Ping(payload) => {
                    let ret = payload.clone().freeze();
                    ReadAction::Reply {
                        reply: Reply::Frame(
                            Frame {
                                op_code: OpCode::ControlCode(ControlCode::Pong),
                                flags: HeaderFlags { fin: true },
                                payload,
                                coding: Coding::Plain,
                            },
                        ),
                        result: Ok(Message::Ping(ret)),
                    }
                },
                Item::Pong(payload) => {
                    if self.control_buffer.is_empty() {
                        ReadAction::Return(Ok(Message::Pong(payload.freeze())))
                    } else {
                        self.control_buffer.clear();
                        ReadAction::Return(Ok(Message::Pong(payload.freeze())))
                    }
                },
                Item::Close(reason) => {
                    self.closed = true;
                    match reason {
                        Some(reason) => ReadAction::Reply {
                            reply: Reply::Close(reason.clone()),
                            result: Ok(Message::Close(Some(reason))),
                        },
                        None => ReadAction::Reply {
                            reply: Reply::Frame(
                                Frame {
                                    op_code: OpCode::ControlCode(ControlCode::Close),
                                    flags: HeaderFlags { fin: true },
                                    payload: BytesMut::with_capacity(0),
                                    coding: Coding::Plain,
                                },
                            ),
                            result: Ok(Message::Close(None)),
                        },
                    }
                },
            },
            ReadEvent::Failed { error, text } => {
                self.closed = true;
                if error.is_io() {
                    ReadAction::Return(Err(error))
                } else {
                    let reason = CloseReason::new(CloseCode::Protocol, Some(text));
                    ReadAction::Reply { reply: Reply::Close(reason), result: Err(error) }
                }
            },
            ReadEvent::Replied { result, outcome } => match outcome {
                Ok(()) => ReadAction::Return(result),
                Err(error) => ReadAction::Return(Err(error)),
            },
        }
    }

    /// Writes a text message with a payload of `data`.
    pub fn write_text<'a>(&mut self, data: &'a str) -> (result: Result<Frame<&'a [u8]>, Error>)
        ensures
            final(self)@ == old(self)@.after_write(vstd::utf8::encode_utf8(data@), PayloadType::Text),
            frame_view(result) == old(self)@.write_result(vstd::utf8::encode_utf8(data@), PayloadType::Text),
            final(self).same_connection(*old(self)),
    {
        self.write(data.as_bytes(), PayloadType::Text)
    }

    /// Writes a binary message with a payload of `data`.
    pub fn write_binary<'a>(&mut self, data: &'a [u8]) -> (result: Result<Frame<&'a [u8]>, Error>)
        ensures
            final(self)@ == old(self)@.after_write(data@, PayloadType::Binary),
            frame_view(result) == old(self)@.write_result(data@, PayloadType::Binary),
            final(self).same_connection(*old(self)),
    {
        self.write(data, PayloadType::Binary)
    }

    /// Writes a ping with a payload of `data`.
    pub fn write_ping<'a>(&mut self, data: &'a [u8]) -> (result: Result<Frame<&'a [u8]>, Error>)
        ensures
            final(self)@ == old(self)@.after_write(data@, PayloadType::Ping),
            frame_view(result) == old(self)@.write_result(data@, PayloadType::Ping),
            final(self).same_connection(*old(self)),
    {
        self.write(data, PayloadType::Ping)
    }

    /// Writes a pong with a payload of `data`.
    pub fn write_pong<'a>(&mut self, data: &'a [u8]) -> (result: Result<Frame<&'a [u8]>, Error>)
        ensures
            final(self)@ == old(self)@.after_write(data@, PayloadType::Pong),
            frame_view(result) == old(self)@.write_result(data@, PayloadType::Pong),
            final(self).same_connection(*old(self)),
    {
        self.write(data, PayloadType::Pong)
    }

    /// Writes a payload of `message_type` in one frame: gives the frame that the framing layer is
    /// to write, and whose fate `finish_write` is to be told as `Written::Payload`.
    pub fn write<'a>(&mut self, buf: &'a [u8], message_type: PayloadType) -> (result: Result<
        Frame<&'a [u8]>,
        Error,
    >)
        ensures
            final(self)@ == old(self)@.after_write(buf@, message_type),
            frame_view(result) == old(self)@.write_result(buf@, message_type),
            final(self).same_connection(*old(self)),
    {
        if self.closed {
            return Err(Error::with_cause(ErrorKind::Close, Cause::CloseError));
        }
        let op_code = match message_type {
            PayloadType::Text => OpCode::DataCode(DataCode::Text),
            PayloadType::Binary => OpCode::DataCode(DataCode::Binary),
            PayloadType::Ping => {
                if buf.len() > CONTROL_MAX_SIZE {
                    return Err(
                        Error::with_cause(
                            ErrorKind::Protocol,
                            Cause::ProtocolError(ProtocolError::FrameOverflow),
                        ),
                    );
                } else {
                    self.control_buffer.clear();
                    self.control_buffer.extend_from_slice(buf);
                    OpCode::ControlCode(ControlCode::Ping)
                }
            },
            PayloadType::Pong => {
                if buf.len() > CONTROL_MAX_SIZE {
                    return Err(
                        Error::with_cause(
                            ErrorKind::Protocol,
                            Cause::ProtocolError(ProtocolError::FrameOverflow),
                        ),
                    );
                } else {
                    OpCode::ControlCode(ControlCode::Pong)
                }
            },
        };
        Ok(
            Frame {
                op_code,
                flags: HeaderFlags { fin: true },
                payload: buf,
                coding: Coding::Extension,
            },
        )
    }

    /// Closes this WebSocket with the description provided: gives the reason that the framing layer
    /// is to write in a close frame, and whose fate `finish_write` is to be told as
    /// `Written::Close`.
    pub fn close(&mut self, reason: Option<String>) -> (close: CloseReason)
        ensures
            final(self)@ == old(self)@.over(),
            close == (CloseReason { code: CloseCode::Normal, description: reason }),
            final(self).same_connection(*old(self)),
    {
        self.closed = true;
        CloseReason::new(CloseCode::Normal, reason)
    }

    /// Closes this WebSocket with the reason provided, which is given back to be written as that of
    /// `close` is.
    pub fn close_with(&mut self, reason: CloseReason) -> (close: CloseReason)
        ensures
            final(self)@ == old(self)@.over(),
            close == reason,
            final(self).same_connection(*old(self)),
    {
        self.closed = true;
        reason
    }

    /// Writes a message of `message_type` in fragments of `fragment_size` bytes: gives the frames
    /// that the framing layer is to write, in order and up to the first that fails, and whose fate
    /// `finish_write` is to be told as `Written::Fragment`. If the message is no longer than a
    /// fragment, then there is a single frame.
    pub fn write_fragmented<'a>(
        &self,
        buf: &'a [u8],
        message_type: MessageType,
        fragment_size: usize,
    ) -> (result: Result<Vec<Frame<&'a [u8]>>, Error>)
        requires
            self@.closed || fragment_size > 0,
        ensures
            match result {
                Ok(frames) => Ok(frames_view(frames@)),
                Err(error) => Err(error),
            } == self@.fragments_result(buf@, message_type, fragment_size as nat),
    {
        if self.closed {
            return Err(Error::with_cause(ErrorKind::Close, Cause::CloseError));
        }
        let mut op_code = match message_type {
            MessageType::Text => OpCode::DataCode(DataCode::Text),
            MessageType::Binary => OpCode::DataCode(DataCode::Binary),
        };
        let ghost all = fragments(op_code, buf@, fragment_size as nat);
        let mut frames: Vec<Frame<&'a [u8]>> = Vec::new();
        let mut rest: &'a [u8] = buf;
        assert(frames_view(frames@) + all =~= all);
        while rest.len() > fragment_size
            invariant
                fragment_size > 0,
                all == frames_view(frames@) + fragments(op_code, rest@, fragment_size as nat),
            decreases rest.len(),
        {
            frames.push(
                Frame {
                    op_code,
                    flags: HeaderFlags { fin: false },
                    payload: slice_subrange(rest, 0, fragment_size),
                    coding: Coding::Extension,
                },
            );
            rest = slice_subrange(rest, fragment_size, rest.len());
            op_code = OpCode::DataCode(DataCode::Continuation);
            assert(all =~= frames_view(frames@) + fragments(op_code, rest@, fragment_size as nat));
        }
        frames.push(
            Frame {
                op_code,
                flags: HeaderFlags { fin: true },
                payload: rest,
                coding: Coding::Extension,
            },
        );
        assert(frames_view(frames@) =~= all);
        Ok(frames)
    }

    /// Tells how writing went, and gives the result of the operation that asked for it.
    pub fn finish_write(&mut self, written: Written, outcome: Result<(), Error>) -> (result: Result<
        (),
        Error,
    >)
        ensures
            final(self)@ == old(self)@.after_written(written, outcome),
            result == outcome,
            final(self).same_connection(*old(self)),
    {
        match (written, outcome) {
            (Written::Payload, Err(error)) => {
                self.closed = true;
                Err(error)
            },
            (_, outcome) => outcome,
        }
    }

    /// Whether this WebSocket is closed.
    pub fn is_closed(&self) -> (closed: bool)
        ensures
            closed == self@.closed,
    {
        self.closed
    }

    /// The buffer that holds the payload of the last ping that was written and that no pong has
    /// come in after.
    pub fn control_buffer(&self) -> (buffer: &BytesMut)
        ensures
            *buffer == self.spec_control_buffer(),
    {
        &self.control_buffer
    }

    /// The settings of the framing layer.
    pub fn framing(&self) -> (framing: Framing)
        ensures
            framing == self.spec_framing(),
    {
        self.framed.framing()
    }

    /// The stream, the bytes received and the extension, for the framing layer to work with. All
    /// else stays as it is, the role and the other settings included.
    pub fn connection_mut(&mut self) -> (parts: (&mut S, &mut BytesMut, &mut E))
        ensures
            *parts.0 == old(self).spec_framed().spec_stream(),
            *parts.1 == old(self).spec_framed().spec_read_buffer(),
            *parts.2 == old(self).spec_extension(),
            final(self).spec_framed().spec_stream() == *final(parts.0),
            final(self).spec_framed().spec_read_buffer() == *final(parts.1),
            final(self).spec_extension() == *final(parts.2),
            final(self).spec_framing() == old(self).spec_framing(),
            final(self).spec_control_buffer() == old(self).spec_control_buffer(),
            final(self)@ == old(self)@,
    {
        let (stream, read_buffer) = self.framed.io_mut();
        (stream, read_buffer, &mut self.extension)
    }

    /// Splits the WebSocket into the parts that a sender and a receiver are made of. This only
    /// fails if the WebSocket is closed.
    pub fn split(self) -> (result: Result<SplitSocket<S, E>, Error>)
        ensures
            result == if self@.closed {
                Err(close_error())
            } else {
                Ok(
                    SplitSocket {
                        framed: self.spec_framed(),
                        control_buffer: self.spec_control_buffer(),
                        extension: self.spec_extension(),
                    },
                )
            },
    {
        if self.is_closed() {
            Err(Error::with_cause(ErrorKind::Close, Cause::CloseError))
        } else {
            let WebSocket { framed, control_buffer, extension, .. } = self;
            Ok(SplitSocket { framed, control_buffer, extension })
        }
    }
}

impl<S, E> WebSocket<S, E> where E: Extension {
    /// A WebSocket over a stream that has already executed a handshake.
    ///
    /// `read_buffer` may hold bytes that were received after the handshake. `role` is the side of
    /// the connection that the WebSocket takes.
    pub fn from_upgraded(
        config: WebSocketConfig,
        stream: S,
        extension: E,
        read_buffer: BytesMut,
        role: Role,
    ) -> (socket: WebSocket<S, E>)
        ensures
            socket@ == Session::fresh(),
            socket.spec_extension() == extension,
            socket.spec_framed().spec_stream() == stream,
            socket.spec_framed().spec_read_buffer() == read_buffer,
            socket.spec_framing().role == role,
            socket.spec_framing().max_message_size == config.max_message_size,
            call_ensures(E::bits, (&extension,), socket.spec_framing().ext_bits),
    {
        let WebSocketConfig { max_message_size } = config;
        let ext_bits = extension.bits();
        WebSocket {
            framed: FramedIo::new(stream, read_buffer, role, max_message_size, ext_bits),
            extension,
            control_buffer: BytesMut::with_capacity(CONTROL_MAX_SIZE),
            closed: false,
        }
    }
}

} // verus!
