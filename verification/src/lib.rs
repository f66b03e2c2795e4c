//! The decisions of a WebSocket session, apart from the input and output that carries them out.
//!
//! A [`WebSocket`] is asked to read, to write or to close, and says what the framing layer is to do
//! for it: receive an item, write a frame, write a close frame. It is then told how that went. The
//! framing layer, which turns frames into bytes on a stream and back, is not part of the library.

pub mod buffer;
pub mod delivery;
pub mod errors;
pub mod ext;
pub mod framed;
pub mod guarantees;
pub mod laws;
pub mod protocol;
pub mod session;
pub mod ws;

pub use crate::errors::{Cause, Error, ErrorKind, ProtocolError};
pub use crate::ext::{extension_encode, Extension, ExtensionEncoder, FrameHeader, NoExt, RsvBits};
pub use crate::framed::{Coding, Frame, FramedIo, Framing, Item};
pub use crate::protocol::{
    CloseCode, CloseReason, ControlCode, DataCode, HeaderFlags, Message, MessageType, OpCode,
    PayloadType, Role, WebSocketConfig, CONTROL_MAX_SIZE,
};
pub use crate::session::{ReadAction, ReadEvent, Reply, Written};
pub use crate::ws::{SplitSocket, WebSocket};
