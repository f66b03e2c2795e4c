//! The border with the framing layer, which reads frames off a stream and writes them to it: what
//! that layer is set up with, what it hands up, and what it is asked to write.

use crate::buffer::buffered;
use crate::ext::RsvBits;
use crate::protocol::{CloseReason, HeaderFlags, OpCode, Role};
use bytes::BytesMut;
use vstd::prelude::*;

verus! {

/// The settings of the framing layer, which stay the same for as long as a session lasts.
#[derive(Debug, Clone, Copy, PartialEq, Eq, Structural)]
pub struct Framing {
    /// The side of the connection that is taken.
    pub role: Role,
    /// The most bytes that a message may hold.
    pub max_message_size: usize,
    /// The reserved header bits that the extension lays claim to.
    pub ext_bits: RsvBits,
}

/// A stream and what the framing layer is set up with to run a session over it.
#[derive(Debug)]
pub struct FramedIo<S> {
    /// The stream.
    stream: S,
    /// Bytes that have been received and not yet been read.
    read_buffer: BytesMut,
    /// The settings, which only `new` sets.
    framing: Framing,
}

impl<S> FramedIo<S> {
    /// The stream.
    pub closed spec fn spec_stream(self) -> S {
        self.stream
    }

    /// The bytes that have been received and not yet been read.
    pub closed spec fn spec_read_buffer(self) -> BytesMut {
        self.read_buffer
    }

    /// The settings.
    pub closed spec fn spec_framing(self) -> Framing {
        self.framing
    }

    pub fn new(
        stream: S,
        read_buffer: BytesMut,
        role: Role,
        max_message_size: usize,
        ext_bits: RsvBits,
    ) -> (framed: FramedIo<S>)
        ensures
            framed.spec_stream() == stream,
            framed.spec_read_buffer() == read_buffer,
            framed.spec_framing() == (Framing { role, max_message_size, ext_bits }),
    {
        FramedIo { stream, read_buffer, framing: Framing { role, max_message_size, ext_bits } }
    }

    /// The settings.
    pub fn framing(&self) -> (framing: Framing)
        ensures
            framing == self.spec_framing(),
    {
        self.framing
    }

    /// Whether this side of the connection is the server.
    pub fn is_server(&self) -> (server: bool)
        ensures
            server == (self.spec_framing().role == Role::Server),
    {
        self.framing.role == Role::Server
    }

    /// The stream and the bytes received, for the framing layer to work with. The settings stay as
    /// they are.
    pub fn io_mut(&mut self) -> (io: (&mut S, &mut BytesMut))
        ensures
            *io.0 == old(self).spec_stream(),
            *io.1 == old(self).spec_read_buffer(),
            final(self).spec_stream() == *final(io.0),
            final(self).spec_read_buffer() == *final(io.1),
            final(self).spec_framing() == old(self).spec_framing(),
    {
        (&mut self.stream, &mut self.read_buffer)
    }
}

/// What the framing layer hands up: a whole message, or a control frame.
#[derive(Debug, PartialEq)]
pub enum Item {
    /// A binary message, whose bytes are in the read buffer.
    Binary,
    /// A text message, whose bytes are in the read buffer.
    Text,
    Ping(BytesMut),
    Pong(BytesMut),
    Close(Option<CloseReason>),
}

/// An `Item` by the bytes that it holds.
pub enum ItemView {
    Binary,
    Text,
    Ping(Seq<u8>),
    Pong(Seq<u8>),
    Close(Option<CloseReason>),
}

impl View for Item {
    type V = ItemView;

    open spec fn view(&self) -> ItemView {
        match *self {
            Item::Binary => ItemView::Binary,
            Item::Text => ItemView::Text,
            Item::Ping(payload) => ItemView::Ping(buffered(payload)),
            Item::Pong(payload) => ItemView::Pong(buffered(payload)),
            Item::Close(reason) => ItemView::Close(reason),
        }
    }
}

/// Who has a say in the payload of a frame before it is written.
#[derive(Debug, Clone, Copy, PartialEq, Eq, Structural)]
pub enum Coding {
    /// Nobody: the payload is written as it is.
    Plain,
    /// The negotiated extension, which is put the payload first.
    Extension,
}

/// A frame to write.
#[derive(Debug, PartialEq, Eq)]
#[verifier::ext_equal]
pub struct Frame<P> {
    pub op_code: OpCode,
    pub flags: HeaderFlags,
    pub payload: P,
    pub coding: Coding,
}

impl View for Frame<BytesMut> {
    type V = Frame<Seq<u8>>;

    open spec fn view(&self) -> Frame<Seq<u8>> {
        Frame {
            op_code: self.op_code,
            flags: self.flags,
            payload: buffered(self.payload),
            coding: self.coding,
        }
    }
}

impl<'a> View for Frame<&'a [u8]> {
    type V = Frame<Seq<u8>>;

    open spec fn view(&self) -> Frame<Seq<u8>> {
        Frame {
            op_code: self.op_code,
            flags: self.flags,
            payload: self.payload@,
            coding: self.coding,
        }
    }
}

} // verus!
