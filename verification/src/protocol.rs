//! The vocabulary of the WebSocket protocol.

use crate::buffer::frozen;
use bytes::Bytes;
use vstd::prelude::*;

verus! {

/// The most bytes that a control frame may hold.
pub const CONTROL_MAX_SIZE: usize = 125;

/// The side of the connection that a WebSocket takes.
#[derive(Debug, Clone, Copy, PartialEq, Eq, Structural)]
pub enum Role {
    Client,
    Server,
}

/// The operation codes of frames that carry a message.
#[derive(Debug, Clone, Copy, PartialEq, Eq, Structural)]
pub enum DataCode {
    Continuation,
    Text,
    Binary,
}

/// The operation codes of frames that steer the connection.
#[derive(Debug, Clone, Copy, PartialEq, Eq, Structural)]
pub enum ControlCode {
    Close,
    Ping,
    Pong,
}

/// The operation code of a frame.
#[derive(Debug, Clone, Copy, PartialEq, Eq, Structural)]
pub enum OpCode {
    DataCode(DataCode),
    ControlCode(ControlCode),
}

/// The flags that the session sets in the header of a frame.
#[derive(Debug, Clone, Copy, PartialEq, Eq, Structural)]
pub struct HeaderFlags {
    /// Whether the frame is the last of its message.
    pub fin: bool,
}

/// What a caller can write in one frame.
#[derive(Debug, Clone, Copy, PartialEq, Eq, Structural)]
pub enum PayloadType {
    Text,
    Binary,
    Ping,
    Pong,
}

/// What a caller can write in several frames.
#[derive(Debug, Clone, Copy, PartialEq, Eq, Structural)]
pub enum MessageType {
    Text,
    Binary,
}

impl PayloadType {
    /// The operation code of the frame that carries a payload of this type.
    pub open spec fn spec_op_code(self) -> OpCode {
        match self {
            PayloadType::Text => OpCode::DataCode(DataCode::Text),
            PayloadType::Binary => OpCode::DataCode(DataCode::Binary),
            PayloadType::Ping => OpCode::ControlCode(ControlCode::Ping),
            PayloadType::Pong => OpCode::ControlCode(ControlCode::Pong),
        }
    }

    /// Whether the frame that carries a payload of this type is a control frame.
    pub open spec fn is_control(self) -> bool {
        self is Ping || self is Pong
    }
}

impl MessageType {
    /// The operation code of the first frame of a message of this type.
    pub open spec fn spec_op_code(self) -> OpCode {
        match self {
            MessageType::Text => OpCode::DataCode(DataCode::Text),
            MessageType::Binary => OpCode::DataCode(DataCode::Binary),
        }
    }
}

/// Why a WebSocket is closed, as the code in a close frame tells it.
#[derive(Debug, Clone, Copy, PartialEq, Eq, Structural)]
pub enum CloseCode {
    /// The purpose of the connection is fulfilled.
    Normal,
    /// The peer has broken the protocol.
    Protocol,
    /// Any other code, by its number.
    Other(u16),
}

/// The contents of a close frame that gives a reason.
#[derive(Debug, PartialEq, Eq)]
pub struct CloseReason {
    pub code: CloseCode,
    pub description: Option<String>,
}

impl CloseReason {
    /// A reason with the given code and, where there is one, the given description.
    pub fn new(code: CloseCode, description: Option<String>) -> (reason: CloseReason)
        ensures
            reason == (CloseReason { code, description }),
    {
        CloseReason { code, description }
    }
}

impl Clone for CloseReason {
    fn clone(&self) -> (copy: CloseReason)
        ensures
            copy == *self,
    {
        let description = match &self.description {
            Some(text) => Some(text.clone()),
            None => None,
        };
        CloseReason { code: self.code, description }
    }
}

/// What a read yields.
#[derive(Debug, PartialEq)]
pub enum Message {
    /// A text message, whose bytes are in the read buffer.
    Text,
    /// A binary message, whose bytes are in the read buffer.
    Binary,
    /// A ping, which has been answered.
    Ping(Bytes),
    /// A pong.
    Pong(Bytes),
    /// The peer has closed the connection, with the reason that it gave.
    Close(Option<CloseReason>),
}

/// A `Message` by the bytes that it holds.
pub enum MessageView {
    Text,
    Binary,
    Ping(Seq<u8>),
    Pong(Seq<u8>),
    Close(Option<CloseReason>),
}

impl View for Message {
    type V = MessageView;

    open spec fn view(&self) -> MessageView {
        match *self {
            Message::Text => MessageView::Text,
            Message::Binary => MessageView::Binary,
            Message::Ping(payload) => MessageView::Ping(frozen(payload)),
            Message::Pong(payload) => MessageView::Pong(frozen(payload)),
            Message::Close(reason) => MessageView::Close(reason),
        }
    }
}

/// The settings of a WebSocket.
#[derive(Debug, Clone, Copy, PartialEq, Eq, Structural)]
pub struct WebSocketConfig {
    /// The most bytes that a message may hold.
    pub max_message_size: usize,
}

} // verus!
