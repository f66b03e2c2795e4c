//! The session as a state machine: what each operation does to its state, and what it asks of the
//! framing layer.

use crate::errors::{close_error, frame_overflow, Error, ErrorKind};
use crate::framed::{Coding, Frame, Item, ItemView};
use crate::protocol::{
    CloseCode, CloseReason, ControlCode, DataCode, HeaderFlags, Message, MessageType, MessageView,
    OpCode, PayloadType, CONTROL_MAX_SIZE,
};
use bytes::BytesMut;
use vstd::prelude::*;

verus! {

/// What moves a read along.
#[derive(Debug, PartialEq)]
pub enum ReadEvent {
    /// A read is asked for.
    Start,
    /// The framing layer has handed up an item.
    Received(Item),
    /// The framing layer has failed to hand up an item.
    Failed {
        error: Error,
        /// What the error prints.
        text: String,
    },
    /// The framing layer is done with the reply that it was asked to write.
    Replied {
        /// What came with the reply.
        result: Result<Message, Error>,
        /// How writing the reply went.
        outcome: Result<(), Error>,
    },
}

/// What a read asks for next.
#[derive(Debug, PartialEq)]
pub enum ReadAction {
    /// Have the framing layer hand up the next item.
    Receive,
    /// Have the framing layer write a reply, and come back with `result` and how that went.
    Reply { reply: Reply, result: Result<Message, Error> },
    /// The read is over, with this result.
    Return(Result<Message, Error>),
}

/// What a read writes on its own account.
#[derive(Debug, PartialEq)]
pub enum Reply {
    /// A frame.
    Frame(Frame<BytesMut>),
    /// A close frame that gives a reason.
    Close(CloseReason),
}

/// What the framing layer was asked to write.
#[derive(Debug, Clone, Copy, PartialEq, Eq, Structural)]
pub enum Written {
    /// A frame that holds a whole payload.
    Payload,
    /// One of the frames of a fragmented message.
    Fragment,
    /// A close frame.
    Close,
}

/// A `ReadEvent` by the bytes that it holds.
pub enum ReadEventView {
    Start,
    Received(ItemView),
    Failed { error: Error, text: String },
    Replied { result: Result<MessageView, Error>, outcome: Result<(), Error> },
}

/// A `ReadAction` by the bytes that it holds.
pub enum ReadActionView {
    Receive,
    Reply { reply: ReplyView, result: Result<MessageView, Error> },
    Return(Result<MessageView, Error>),
}

/// A `Reply` by the bytes that it holds.
pub enum ReplyView {
    Frame(Frame<Seq<u8>>),
    Close(CloseReason),
}

/// The result of a read by the bytes that it holds.
pub open spec fn result_view(result: Result<Message, Error>) -> Result<MessageView, Error> {
    match result {
        Ok(message) => Ok(message@),
        Err(error) => Err(error),
    }
}

impl View for ReadEvent {
    type V = ReadEventView;

    open spec fn view(&self) -> ReadEventView {
        match *self {
            ReadEvent::Start => ReadEventView::Start,
            ReadEvent::Received(item) => ReadEventView::Received(item@),
            ReadEvent::Failed { error, text } => ReadEventView::Failed { error, text },
            ReadEvent::Replied { result, outcome } => ReadEventView::Replied {
                result: result_view(result),
                outcome,
            },
        }
    }
}

impl View for Reply {
    type V = ReplyView;

    open spec fn view(&self) -> ReplyView {
        match *self {
            Reply::Frame(frame) => ReplyView::Frame(frame@),
            Reply::Close(reason) => ReplyView::Close(reason),
        }
    }
}

impl View for ReadAction {
    type V = ReadActionView;

    open spec fn view(&self) -> ReadActionView {
        match *self {
            ReadAction::Receive => ReadActionView::Receive,
            ReadAction::Reply { reply, result } => ReadActionView::Reply {
                reply: reply@,
                result: result_view(result),
            },
            ReadAction::Return(result) => ReadActionView::Return(result_view(result)),
        }
    }
}

/// A control frame that the session writes on its own account, past the extension.
pub open spec fn control_frame(code: ControlCode, payload: Seq<u8>) -> Frame<Seq<u8>> {
    Frame {
        op_code: OpCode::ControlCode(code),
        flags: HeaderFlags { fin: true },
        payload,
        coding: Coding::Plain,
    }
}

/// A frame that a caller has the session write, by way of the extension.
pub open spec fn caller_frame(op_code: OpCode, fin: bool, payload: Seq<u8>) -> Frame<Seq<u8>> {
    Frame { op_code, flags: HeaderFlags { fin }, payload, coding: Coding::Extension }
}

/// The frames that carry `payload` in fragments of `size` bytes, the last of which may be shorter.
/// `op_code` is that of the first frame. The others continue it.
pub open spec fn fragments(op_code: OpCode, payload: Seq<u8>, size: nat) -> Seq<Frame<Seq<u8>>>
    decreases payload.len(),
{
    if payload.len() <= size || size == 0 {
        seq![caller_frame(op_code, true, payload)]
    } else {
        seq![caller_frame(op_code, false, payload.take(size as int))] + fragments(
            OpCode::DataCode(DataCode::Continuation),
            payload.skip(size as int),
            size,
        )
    }
}

/// The state of a session.
#[verifier::ext_equal]
pub struct Session {
    /// The payload of the last ping that was written and that no pong has come in after.
    pub control: Seq<u8>,
    /// Whether the session is over.
    pub closed: bool,
}

impl Session {
    /// A session that has just begun.
    pub open spec fn fresh() -> Session {
        Session { control: Seq::empty(), closed: false }
    }

    /// What holds of every session that starts out fresh: the ping that it remembers fits in a
    /// control frame.
    pub open spec fn wf(self) -> bool {
        self.control.len() <= CONTROL_MAX_SIZE
    }

    /// The same session, over.
    pub open spec fn over(self) -> Session {
        Session { closed: true, ..self }
    }

    /// The state that an event of a read leads to.
    pub open spec fn after_read(self, event: ReadEventView) -> Session {
        match event {
            ReadEventView::Received(ItemView::Pong(_)) => Session { control: Seq::empty(), ..self },
            ReadEventView::Received(ItemView::Close(_)) => self.over(),
            ReadEventView::Failed { .. } => self.over(),
            _ => self,
        }
    }

    /// What a read asks for upon an event.
    pub open spec fn read_action(self, event: ReadEventView) -> ReadActionView {
        match event {
            ReadEventView::Start => if self.closed {
                ReadActionView::Return(Err(close_error()))
            } else {
                ReadActionView::Receive
            },
            ReadEventView::Received(item) => received_action(item),
            ReadEventView::Failed { error, text } => failed_action(error, text),
            ReadEventView::Replied { result, outcome } => match outcome {
                Ok(()) => ReadActionView::Return(result),
                Err(error) => ReadActionView::Return(Err(error)),
            },
        }
    }

    /// Whether a frame of this type and payload is refused, and with which error.
    pub open spec fn write_error(self, payload: Seq<u8>, message_type: PayloadType) -> Option<
        Error,
    > {
        if self.closed {
            Some(close_error())
        } else if message_type.is_control() && payload.len() > CONTROL_MAX_SIZE {
            Some(frame_overflow())
        } else {
            None
        }
    }

    /// The state that a write leads to.
    pub open spec fn after_write(self, payload: Seq<u8>, message_type: PayloadType) -> Session {
        if self.write_error(payload, message_type) is None && message_type is Ping {
            Session { control: payload, ..self }
        } else {
            self
        }
    }

    /// What a write gives: the frame to write, or the error with which it is refused.
    pub open spec fn write_result(self, payload: Seq<u8>, message_type: PayloadType) -> Result<
        Frame<Seq<u8>>,
        Error,
    > {
        match self.write_error(payload, message_type) {
            Some(error) => Err(error),
            None => Ok(caller_frame(message_type.spec_op_code(), true, payload)),
        }
    }

    /// What a fragmented write gives: the frames to write, or the error with which it is refused.
    pub open spec fn fragments_result(
        self,
        payload: Seq<u8>,
        message_type: MessageType,
        size: nat,
    ) -> Result<Seq<Frame<Seq<u8>>>, Error> {
        if self.closed {
            Err(close_error())
        } else {
            Ok(fragments(message_type.spec_op_code(), payload, size))
        }
    }

    /// The state once the framing layer is done with what it was asked to write: a payload that
    /// could not be written is the end of the session.
    pub open spec fn after_written(self, written: Written, outcome: Result<(), Error>) -> Session {
        if written is Payload && outcome is Err {
            self.over()
        } else {
            self
        }
    }
}

/// What a read asks for upon an item: data and pongs are returned, a ping is answered by a pong
/// with the same payload, and a close by a close with the same reason.
pub open spec fn received_action(item: ItemView) -> ReadActionView {
    match item {
        ItemView::Binary => ReadActionView::Return(Ok(MessageView::Binary)),
        ItemView::Text => ReadActionView::Return(Ok(MessageView::Text)),
        ItemView::Ping(payload) => ReadActionView::Reply {
            reply: ReplyView::Frame(control_frame(ControlCode::Pong, payload)),
            result: Ok(MessageView::Ping(payload)),
        },
        ItemView::Pong(payload) => ReadActionView::Return(Ok(MessageView::Pong(payload))),
        ItemView::Close(reason) => ReadActionView::Reply {
            reply: match reason {
                Some(reason) => ReplyView::Close(reason),
                None => ReplyView::Frame(control_frame(ControlCode::Close, Seq::empty())),
            },
            result: Ok(MessageView::Close(reason)),
        },
    }
}

/// What a read asks for upon a failure: the peer is told what went wrong, unless it is the stream
/// that failed.
pub open spec fn failed_action(error: Error, text: String) -> ReadActionView {
    if error.kind == ErrorKind::IO {
        ReadActionView::Return(Err(error))
    } else {
        ReadActionView::Reply {
            reply: ReplyView::Close(
                CloseReason { code: CloseCode::Protocol, description: Some(text) },
            ),
            result: Err(error),
        }
    }
}

} // verus!
