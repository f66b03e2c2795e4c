//! The errors of a session.

use vstd::prelude::*;

verus! {

/// What part of a connection an error comes from.
#[derive(Debug, Clone, Copy, PartialEq, Eq, Structural)]
pub enum ErrorKind {
    /// The WebSocket is closed.
    Close,
    /// The negotiated extension failed.
    Extension,
    /// The stream failed.
    IO,
    /// A rule of the WebSocket protocol was broken.
    Protocol,
    /// Any other failure of the layers that carry the session.
    Other,
}

/// The rules of the protocol that a session itself enforces.
#[derive(Debug, Clone, Copy, PartialEq, Eq, Structural)]
pub enum ProtocolError {
    /// A control frame holds more bytes than such a frame may.
    FrameOverflow,
}

/// The cause of an error.
#[derive(Debug, PartialEq, Eq)]
pub enum Cause {
    /// An operation was asked of a closed WebSocket.
    CloseError,
    /// A rule of the protocol was broken.
    ProtocolError(ProtocolError),
    /// A failure of another layer, in that layer's own words.
    Description(String),
}

/// An error: its kind and its cause.
#[derive(Debug, PartialEq, Eq)]
pub struct Error {
    pub kind: ErrorKind,
    pub cause: Cause,
}

/// What every operation on a closed WebSocket is answered.
pub open spec fn close_error() -> Error {
    Error { kind: ErrorKind::Close, cause: Cause::CloseError }
}

/// What a control frame that is too long is answered.
pub open spec fn frame_overflow() -> Error {
    Error {
        kind: ErrorKind::Protocol,
        cause: Cause::ProtocolError(ProtocolError::FrameOverflow),
    }
}

impl Error {
    /// An error of the given kind that comes of the given cause.
    pub fn with_cause(kind: ErrorKind, cause: Cause) -> (error: Error)
        ensures
            error == (Error { kind, cause }),
    {
        Error { kind, cause }
    }

    /// Whether the stream failed.
    pub fn is_io(&self) -> (io: bool)
        ensures
            io == (self.kind == ErrorKind::IO),
    {
        self.kind == ErrorKind::IO
    }

    /// Whether a rule of the protocol was broken.
    pub fn is_protocol(&self) -> (protocol: bool)
        ensures
            protocol == (self.kind == ErrorKind::Protocol),
    {
        self.kind == ErrorKind::Protocol
    }
}

} // verus!
