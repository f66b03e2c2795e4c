//! Extensions: what a user plugs into a session to transform the payload of its frames.

use crate::errors::{Cause, Error, ErrorKind};
use crate::protocol::OpCode;
use bytes::BytesMut;
use vstd::prelude::*;

verus! {

/// The reserved bits of a frame header.
#[derive(Debug, Clone, Copy, PartialEq, Eq, Structural)]
pub struct RsvBits {
    pub rsv1: bool,
    pub rsv2: bool,
    pub rsv3: bool,
}

/// The header of a frame, as an extension sees it.
#[derive(Debug, Clone, Copy, PartialEq, Eq, Structural)]
pub struct FrameHeader {
    pub fin: bool,
    pub rsv1: bool,
    pub rsv2: bool,
    pub rsv3: bool,
    pub opcode: OpCode,
}

/// What transforms the payload of outgoing frames.
pub trait ExtensionEncoder {
    /// Transforms the payload of a frame, and the header where the transformation shows in it. On
    /// failure, says what went wrong.
    fn encode(&mut self, payload: &mut BytesMut, header: &mut FrameHeader) -> Result<(), String>;
}

/// An extension that can be negotiated for a session.
pub trait Extension: ExtensionEncoder {
    /// The reserved bits that the extension lays claim to.
    fn bits(&self) -> RsvBits;
}

/// The extension that does nothing.
#[derive(Debug, Clone, Copy, PartialEq, Eq, Structural)]
pub struct NoExt;

impl ExtensionEncoder for NoExt {
    fn encode(&mut self, payload: &mut BytesMut, header: &mut FrameHeader) -> (outcome: Result<
        (),
        String,
    >)
        ensures
            outcome == Ok::<(), String>(()),
            *final(payload) == *old(payload),
            *final(header) == *old(header),
    {
        Ok(())
    }
}

impl Extension for NoExt {
    fn bits(&self) -> (bits: RsvBits)
        ensures
            bits == (RsvBits { rsv1: false, rsv2: false, rsv3: false }),
    {
        RsvBits { rsv1: false, rsv2: false, rsv3: false }
    }
}

/// The error that stands for the failure of an extension.
pub open spec fn extension_error(description: String) -> Error {
    Error { kind: ErrorKind::Extension, cause: Cause::Description(description) }
}

/// What an encoder's outcome is to the session.
pub open spec fn spec_encoded(outcome: Result<(), String>) -> Result<(), Error> {
    match outcome {
        Ok(()) => Ok(()),
        Err(description) => Err(extension_error(description)),
    }
}

/// Turns an encoder's outcome into the session's: a failure becomes an error of the extension.
pub fn encoded(outcome: Result<(), String>) -> (result: Result<(), Error>)
    ensures
        result == spec_encoded(outcome),
{
    match outcome {
        Ok(()) => Ok(()),
        Err(description) => Err(
            Error::with_cause(ErrorKind::Extension, Cause::Description(description)),
        ),
    }
}

/// Puts the payload and the header of a frame to the encoder of an extension. The encoder is the
/// only thing that decides: a failure of the encoder, and nothing else, is an error.
pub fn extension_encode<E>(
    extension: &mut E,
    buf: &mut BytesMut,
    header: &mut FrameHeader,
) -> (result: Result<(), Error>) where E: ExtensionEncoder
    ensures
        exists|
            encoder: &mut E,
            payload: &mut BytesMut,
            head: &mut FrameHeader,
            outcome: Result<(), String>,
        |
            {
                // A call of `encode` with the arguments of this one ...
                &&& #[trigger] call_ensures(E::encode, (encoder, payload, head), outcome)
                &&& *encoder == *old(extension)
                &&& *payload == *old(buf)
                &&& *head == *old(header)
                // ... left them as this one leaves them, and its outcome is the result.
                &&& *final(encoder) == *final(extension)
                &&& *final(payload) == *final(buf)
                &&& *final(head) == *final(header)
                &&& result == spec_encoded(outcome)
            },
{
    let outcome = extension.encode(buf, header);
    encoded(outcome)
}

} // verus!
