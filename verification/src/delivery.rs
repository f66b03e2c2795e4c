//! What one side writes and what the other side is handed up.
//!
//! The framing layer of the reading side is described here as far as the laws need it: what it hands
//! up, and what it leaves in the read buffer, for frames that reach it unharmed.

use crate::errors::Error;
use crate::framed::{Coding, Frame, ItemView};
use crate::protocol::{
    ControlCode, DataCode, MessageType, MessageView, OpCode, PayloadType, CONTROL_MAX_SIZE,
};
use crate::session::{
    caller_frame, control_frame, fragments, ReadActionView, ReadEventView, ReplyView, Session,
};
use vstd::prelude::*;

verus! {

/// The payloads of frames, one after the other.
pub open spec fn joined(frames: Seq<Frame<Seq<u8>>>) -> Seq<u8>
    decreases frames.len(),
{
    if frames.len() == 0 {
        Seq::empty()
    } else {
        frames[0].payload + joined(frames.drop_first())
    }
}

/// The payload of a frame that comes last goes last.
proof fn joined_with_one_more(frames: Seq<Frame<Seq<u8>>>, frame: Frame<Seq<u8>>)
    ensures
        joined(frames.push(frame)) == joined(frames) + frame.payload,
    decreases frames.len(),
{
    let more = frames.push(frame);
    if frames.len() == 0 {
        assert(more.drop_first() =~= Seq::empty());
        assert(joined(more.drop_first()) =~= Seq::empty());
        assert(joined(more) =~= joined(frames) + frame.payload);
    } else {
        joined_with_one_more(frames.drop_first(), frame);
        assert(more.drop_first() =~= frames.drop_first().push(frame));
        assert(joined(more) =~= joined(frames) + frame.payload);
    }
}

/// The fragments of a message, put together, are the message.
pub proof fn fragments_join_to_message(op_code: OpCode, payload: Seq<u8>, size: nat)
    requires
        size > 0,
    ensures
        joined(fragments(op_code, payload, size)) == payload,
    decreases payload.len(),
{
    let frames = fragments(op_code, payload, size);
    if payload.len() <= size {
        assert(frames.drop_first() =~= Seq::empty());
        assert(joined(frames.drop_first()) =~= Seq::empty());
        assert(joined(frames) =~= payload);
    } else {
        let continuation = OpCode::DataCode(DataCode::Continuation);
        let rest = payload.skip(size as int);
        fragments_join_to_message(continuation, rest, size);
        assert(frames.drop_first() =~= fragments(continuation, rest, size));
        assert(joined(frames) =~= payload.take(size as int) + rest);
        assert(payload.take(size as int) + rest =~= payload);
    }
}

/// The shape of a fragmented message: the first frame has the operation code of the message and the
/// others continue it, the last frame alone says that it is the last, all but the last hold
/// `size` bytes, and the last holds the remainder, which is not empty unless the message is.
pub proof fn shape_of_fragments(op_code: OpCode, payload: Seq<u8>, size: nat)
    requires
        size > 0,
    ensures
        ({
            let frames = fragments(op_code, payload, size);
            let last = frames.len() - 1;
            &&& last >= 0
            &&& frames[0].op_code == op_code
            &&& forall|i: int|
                0 < i <= last ==> (#[trigger] frames[i]).op_code == OpCode::DataCode(
                    DataCode::Continuation,
                )
            &&& forall|i: int|
                0 <= i <= last ==> ((#[trigger] frames[i]).flags.fin <==> i == last)
            &&& forall|i: int| 0 <= i < last ==> (#[trigger] frames[i]).payload.len() == size
            &&& frames[last].payload.len() <= size
            &&& payload.len() > 0 ==> frames[last].payload.len() > 0
            &&& forall|i: int|
                0 <= i <= last ==> (#[trigger] frames[i]).coding == Coding::Extension
        }),
    decreases payload.len(),
{
    if payload.len() > size {
        let continuation = OpCode::DataCode(DataCode::Continuation);
        let rest = payload.skip(size as int);
        shape_of_fragments(continuation, rest, size);
        let frames = fragments(op_code, payload, size);
        let tail = fragments(continuation, rest, size);
        assert(forall|i: int| 0 < i < frames.len() ==> #[trigger] frames[i] == tail[i - 1]);
    }
}

/// What the extensions of the two sides make of the frames on their way from one to the other,
/// where `through` is what becomes of a payload that the one encodes and the other decodes. A plain
/// frame goes past both extensions.
pub open spec fn carried(
    frames: Seq<Frame<Seq<u8>>>,
    through: spec_fn(Seq<u8>) -> Seq<u8>,
) -> Seq<Frame<Seq<u8>>> {
    frames.map_values(
        |frame: Frame<Seq<u8>>|
            Frame {
                payload: if frame.coding == Coding::Extension {
                    through(frame.payload)
                } else {
                    frame.payload
                },
                ..frame
            },
    )
}

/// Whether the extension of the reading side undoes what that of the writing side does. With no
/// extension on either side there is nothing to undo.
pub open spec fn undone(through: spec_fn(Seq<u8>) -> Seq<u8>) -> bool {
    forall|payload: Seq<u8>| #[trigger] through(payload) == payload
}

/// Where the extensions undo each other, frames arrive as they were sent.
proof fn carried_unchanged(
    frames: Seq<Frame<Seq<u8>>>,
    through: spec_fn(Seq<u8>) -> Seq<u8>,
)
    requires
        undone(through),
    ensures
        carried(frames, through) == frames,
{
    assert(carried(frames, through) =~= frames);
}

/// An item that the framing layer hands up, and what is in the read buffer at that moment.
pub struct Handed {
    pub item: ItemView,
    pub buffer: Seq<u8>,
}

/// Where the framing layer of the reading side stands.
pub struct Receiving {
    /// What it has handed up, in order.
    pub handed: Seq<Handed>,
    /// The message that it is in the middle of.
    pub message: Option<ItemView>,
    /// What is in the read buffer.
    pub buffer: Seq<u8>,
    /// Whether it has met a frame that it cannot take.
    pub failed: bool,
}

/// What a control frame is handed up as. `None` for one that is too long, and for a close frame
/// that gives a reason, whose layout is the framing layer's.
pub open spec fn control_item(code: ControlCode, payload: Seq<u8>) -> Option<ItemView> {
    if payload.len() > CONTROL_MAX_SIZE {
        None
    } else {
        match code {
            ControlCode::Ping => Some(ItemView::Ping(payload)),
            ControlCode::Pong => Some(ItemView::Pong(payload)),
            ControlCode::Close => if payload.len() == 0 {
                Some(ItemView::Close(None))
            } else {
                None
            },
        }
    }
}

impl Receiving {
    /// Nothing received yet.
    pub open spec fn nothing() -> Receiving {
        Receiving { handed: Seq::empty(), message: None, buffer: Seq::empty(), failed: false }
    }

    /// The message that a data frame belongs to, if it has a place here.
    pub open spec fn message_of_frame(self, code: DataCode) -> Option<ItemView> {
        match (code, self.message) {
            (DataCode::Text, None) => Some(ItemView::Text),
            (DataCode::Binary, None) => Some(ItemView::Binary),
            (DataCode::Continuation, message) => message,
            _ => None,
        }
    }

    /// One frame further. A control frame is handed up at once. A data frame is added to the read
    /// buffer, and the last of a message has the message handed up, whose bytes the reader then
    /// takes out of the buffer.
    pub open spec fn with(self, frame: Frame<Seq<u8>>) -> Receiving {
        let failed = Receiving { failed: true, ..self };
        if self.failed {
            self
        } else {
            match frame.op_code {
                OpCode::ControlCode(code) => match control_item(code, frame.payload) {
                    Some(item) => if frame.flags.fin {
                        Receiving {
                            handed: self.handed.push(Handed { item, buffer: self.buffer }),
                            ..self
                        }
                    } else {
                        failed
                    },
                    None => failed,
                },
                OpCode::DataCode(code) => match self.message_of_frame(code) {
                    Some(item) => {
                        let buffer = self.buffer + frame.payload;
                        if frame.flags.fin {
                            Receiving {
                                handed: self.handed.push(Handed { item, buffer }),
                                message: None,
                                buffer: Seq::empty(),
                                failed: false,
                            }
                        } else {
                            Receiving { message: Some(item), buffer, ..self }
                        }
                    },
                    None => failed,
                },
            }
        }
    }
}

/// Where the framing layer of the reading side stands after the given frames. They are the frames
/// as the extension of that side leaves them, in the order in which they were written, and of
/// messages that are not too long for that side. A text message among them is valid UTF-8: what
/// that side makes of any other is not said here.
pub open spec fn receiving(frames: Seq<Frame<Seq<u8>>>) -> Receiving
    decreases frames.len(),
{
    if frames.len() == 0 {
        Receiving::nothing()
    } else {
        receiving(frames.drop_last()).with(frames.last())
    }
}

/// What the framing layer of the reading side hands up for the given frames.
pub open spec fn handed_up(frames: Seq<Frame<Seq<u8>>>) -> Seq<Handed> {
    receiving(frames).handed
}

/// Where the framing layer stands after a single frame.
pub proof fn handed_up_for_one(frame: Frame<Seq<u8>>)
    ensures
        receiving(seq![frame]) == Receiving::nothing().with(frame),
{
    assert(seq![frame].drop_last() =~= Seq::empty());
    reveal_with_fuel(receiving, 2);
}

/// The message that a payload of the given type is read as.
pub open spec fn message_of(payload: Seq<u8>, message_type: PayloadType) -> MessageView {
    match message_type {
        PayloadType::Text => MessageView::Text,
        PayloadType::Binary => MessageView::Binary,
        PayloadType::Ping => MessageView::Ping(payload),
        PayloadType::Pong => MessageView::Pong(payload),
    }
}

/// What one side writes, the other side reads, where its extension undoes that of the writing side:
/// an open session gives a frame for every message, and for every ping and pong of at most 125 bytes.
/// The frame is handed up as one item of what was written, with the payload of a message in the read
/// buffer, and whoever reads that item gets what was written, at once or with a reply.
pub proof fn what_is_written_is_read(
    writer: Session,
    reader: Session,
    payload: Seq<u8>,
    message_type: PayloadType,
    through: spec_fn(Seq<u8>) -> Seq<u8>,
)
    requires
        !writer.closed,
        message_type == PayloadType::Ping || message_type == PayloadType::Pong ==> payload.len()
            <= 125,
        message_type is Text ==> vstd::utf8::valid_utf8(payload),
        undone(through),
    ensures
        writer.write_result(payload, message_type) matches Ok(frame) && {
            let handed = handed_up(carried(seq![frame], through));
            &&& handed == seq![
                match message_type {
                    PayloadType::Text => Handed { item: ItemView::Text, buffer: payload },
                    PayloadType::Binary => Handed { item: ItemView::Binary, buffer: payload },
                    PayloadType::Ping => Handed {
                        item: ItemView::Ping(payload),
                        buffer: Seq::empty(),
                    },
                    PayloadType::Pong => Handed {
                        item: ItemView::Pong(payload),
                        buffer: Seq::empty(),
                    },
                },
            ]
            &&& match reader.read_action(ReadEventView::Received(handed[0].item)) {
                ReadActionView::Return(result) => result == Ok::<MessageView, Error>(
                    message_of(payload, message_type),
                ),
                ReadActionView::Reply { result, .. } => result == Ok::<MessageView, Error>(
                    message_of(payload, message_type),
                ),
                ReadActionView::Receive => false,
            }
        },
{
    let frame = caller_frame(message_type.spec_op_code(), true, payload);
    carried_unchanged(seq![frame], through);
    handed_up_for_one(frame);
    assert(Seq::<u8>::empty() + payload =~= payload);
}

/// Every text that an open session writes as such is valid UTF-8, and the other side reads a text
/// message with its bytes in the read buffer, where its extension undoes that of the writing side.
pub proof fn every_text_is_read(
    writer: Session,
    reader: Session,
    text: Seq<char>,
    through: spec_fn(Seq<u8>) -> Seq<u8>,
)
    requires
        !writer.closed,
        undone(through),
    ensures
        writer.write_result(vstd::utf8::encode_utf8(text), PayloadType::Text) matches Ok(frame) && {
            let handed = handed_up(carried(seq![frame], through));
            &&& handed.len() == 1
            &&& vstd::utf8::valid_utf8(handed[0].buffer)
            &&& vstd::utf8::decode_utf8(handed[0].buffer) == text
            &&& reader.read_action(ReadEventView::Received(handed[0].item))
                == ReadActionView::Return(Ok(MessageView::Text))
        },
{
    let payload = vstd::utf8::encode_utf8(text);
    vstd::utf8::encode_utf8_valid_utf8(text);
    vstd::utf8::encode_utf8_decode_utf8(text);
    what_is_written_is_read(writer, reader, payload, PayloadType::Text, through);
    let frame = caller_frame(PayloadType::Text.spec_op_code(), true, payload);
    carried_unchanged(seq![frame], through);
    handed_up_for_one(frame);
}

/// Whether a frame is a ping or a pong that may stand between the fragments of a message.
pub open spec fn is_ping_or_pong(frame: Frame<Seq<u8>>) -> bool {
    &&& frame.op_code == OpCode::ControlCode(ControlCode::Ping) || frame.op_code
        == OpCode::ControlCode(ControlCode::Pong)
    &&& frame.flags.fin
    &&& frame.payload.len() <= CONTROL_MAX_SIZE
}

/// The data frames among the given frames, in order.
pub open spec fn data_frames(frames: Seq<Frame<Seq<u8>>>) -> Seq<Frame<Seq<u8>>>
    decreases frames.len(),
{
    if frames.len() == 0 {
        Seq::empty()
    } else {
        let before = data_frames(frames.drop_last());
        if frames.last().op_code is DataCode {
            before.push(frames.last())
        } else {
            before
        }
    }
}

/// The pings and pongs among the given frames, in order, each with the bytes of the data frames
/// before it.
pub open spec fn pings_and_pongs(frames: Seq<Frame<Seq<u8>>>) -> Seq<Handed>
    decreases frames.len(),
{
    if frames.len() == 0 {
        Seq::empty()
    } else {
        let before = pings_and_pongs(frames.drop_last());
        let buffer = joined(data_frames(frames.drop_last()));
        let frame = frames.last();
        match frame.op_code {
            OpCode::ControlCode(ControlCode::Ping) => before.push(
                Handed { item: ItemView::Ping(frame.payload), buffer },
            ),
            OpCode::ControlCode(ControlCode::Pong) => before.push(
                Handed { item: ItemView::Pong(frame.payload), buffer },
            ),
            _ => before,
        }
    }
}

/// Whether `frames` are the fragments `sent` of a message, in order, with nothing but pings and
/// pongs before and between them.
pub open spec fn interleaves(frames: Seq<Frame<Seq<u8>>>, sent: Seq<Frame<Seq<u8>>>) -> bool {
    &&& frames.len() > 0
    &&& frames.last().op_code is DataCode
    &&& data_frames(frames) == sent
    &&& forall|i: int|
        0 <= i < frames.len() ==> (#[trigger] frames[i]).op_code is DataCode || is_ping_or_pong(
            frames[i],
        )
}

/// The message of the given type, as an item.
pub open spec fn message_item(message_type: MessageType) -> ItemView {
    match message_type {
        MessageType::Text => ItemView::Text,
        MessageType::Binary => ItemView::Binary,
    }
}

/// The message that a fragmented message of the given type is read as.
pub open spec fn whole_message(message_type: MessageType) -> MessageView {
    match message_type {
        MessageType::Text => MessageView::Text,
        MessageType::Binary => MessageView::Binary,
    }
}

/// Where the framing layer stands in the middle of a fragmented message.
proof fn receiving_in_the_middle(
    frames: Seq<Frame<Seq<u8>>>,
    message_type: MessageType,
    payload: Seq<u8>,
    size: nat,
)
    requires
        size > 0,
        data_frames(frames).len() < fragments(message_type.spec_op_code(), payload, size).len(),
        data_frames(frames) == fragments(message_type.spec_op_code(), payload, size).take(
            data_frames(frames).len() as int,
        ),
        forall|i: int|
            0 <= i < frames.len() ==> (#[trigger] frames[i]).op_code is DataCode
                || is_ping_or_pong(frames[i]),
    ensures
        receiving(frames) == (Receiving {
            handed: pings_and_pongs(frames),
            message: if data_frames(frames).len() == 0 {
                None
            } else {
                Some(message_item(message_type))
            },
            buffer: joined(data_frames(frames)),
            failed: false,
        }),
    decreases frames.len(),
{
    let sent = fragments(message_type.spec_op_code(), payload, size);
    shape_of_fragments(message_type.spec_op_code(), payload, size);
    if frames.len() > 0 {
        let before = frames.drop_last();
        let frame = frames.last();
        assert(frame == frames[frames.len() - 1]);
        assert forall|i: int| 0 <= i < before.len() implies (#[trigger] before[i]).op_code
            is DataCode || is_ping_or_pong(before[i]) by {
            assert(before[i] == frames[i]);
        }
        let had = data_frames(before);
        let has = data_frames(frames);
        if frame.op_code is DataCode {
            assert(had =~= has.drop_last());
            assert(had =~= sent.take(had.len() as int));
            assert(has[had.len() as int] == frame);
            assert(frame == sent[had.len() as int]);
            joined_with_one_more(had, frame);
        }
        receiving_in_the_middle(before, message_type, payload, size);
    }
}

/// The session after it has read all that was handed up.
pub open spec fn after_reading(session: Session, handed: Seq<Handed>) -> Session
    decreases handed.len(),
{
    if handed.len() == 0 {
        session
    } else {
        after_reading(session, handed.drop_last()).after_read(
            ReadEventView::Received(handed.last().item),
        )
    }
}

/// Pings and pongs leave a session open, and touch nothing in it but the remembered ping.
proof fn pings_and_pongs_end_nothing(session: Session, handed: Seq<Handed>)
    requires
        forall|i: int|
            0 <= i < handed.len() ==> ((#[trigger] handed[i]).item !is Close),
    ensures
        after_reading(session, handed).closed == session.closed,
        after_reading(session, handed).control == session.control || after_reading(
            session,
            handed,
        ).control.len() == 0,
        (forall|i: int| 0 <= i < handed.len() ==> ((#[trigger] handed[i]).item !is Pong))
            ==> after_reading(session, handed) == session,
    decreases handed.len(),
{
    if handed.len() > 0 {
        let before = handed.drop_last();
        assert(forall|i: int| 0 <= i < before.len() ==> #[trigger] before[i] == handed[i]);
        assert(handed.last() == handed[handed.len() - 1]);
        pings_and_pongs_end_nothing(session, before);
    }
}

/// What is handed up of the pings and pongs among frames are pings and pongs.
proof fn pings_and_pongs_are_such(frames: Seq<Frame<Seq<u8>>>)
    ensures
        forall|i: int|
            0 <= i < pings_and_pongs(frames).len() ==> ((#[trigger] pings_and_pongs(
                frames,
            )[i]).item is Ping || pings_and_pongs(frames)[i].item is Pong),
    decreases frames.len(),
{
    if frames.len() > 0 {
        pings_and_pongs_are_such(frames.drop_last());
    }
}

/// A ping or a pong may come in between the fragments of a message. It is handed up at once, with
/// the bytes received so far in the read buffer. The message is then completed as if nothing had
/// come between: it is handed up last, with all of its bytes in the buffer. The reader gets each
/// ping and pong, and then the message, stays open, and forgets the ping that it remembers only
/// where a pong came in. This holds where the extension of the
/// reading side undoes that of the writing side.
pub proof fn control_frames_interleave(
    writer: Session,
    reader: Session,
    payload: Seq<u8>,
    message_type: MessageType,
    size: nat,
    frames: Seq<Frame<Seq<u8>>>,
    through: spec_fn(Seq<u8>) -> Seq<u8>,
)
    requires
        size > 0,
        writer.fragments_result(payload, message_type, size) matches Ok(sent) && interleaves(
            frames,
            sent,
        ),
        message_type is Text ==> vstd::utf8::valid_utf8(payload),
        undone(through),
    ensures
        ({
            let handed = handed_up(carried(frames, through));
            let last = handed.len() - 1;
            &&& handed == pings_and_pongs(frames).push(
                Handed { item: message_item(message_type), buffer: payload },
            )
            &&& forall|i: int|
                0 <= i < last ==> match (#[trigger] handed[i]).item {
                    ItemView::Ping(data) => reader.read_action(
                        ReadEventView::Received(handed[i].item),
                    ) == (ReadActionView::Reply {
                        reply: ReplyView::Frame(control_frame(ControlCode::Pong, data)),
                        result: Ok(MessageView::Ping(data)),
                    }),
                    ItemView::Pong(data) => reader.read_action(
                        ReadEventView::Received(handed[i].item),
                    ) == ReadActionView::Return(Ok(MessageView::Pong(data))),
                    _ => false,
                }
            &&& reader.read_action(ReadEventView::Received(handed[last].item))
                == ReadActionView::Return(
                Ok(whole_message(message_type)),
            )
            &&& after_reading(reader, handed).closed == reader.closed
            &&& after_reading(reader, handed).control == reader.control || after_reading(
                reader,
                handed,
            ).control.len() == 0
            &&& (forall|i: int| 0 <= i < last ==> ((#[trigger] handed[i]).item !is Pong))
                ==> after_reading(reader, handed) == reader
        }),
{
    let op_code = message_type.spec_op_code();
    let sent = fragments(op_code, payload, size);
    let before = frames.drop_last();
    let frame = frames.last();
    shape_of_fragments(op_code, payload, size);
    fragments_join_to_message(op_code, payload, size);
    carried_unchanged(frames, through);
    assert(data_frames(before) =~= sent.drop_last());
    assert(data_frames(before) =~= sent.take(data_frames(before).len() as int));
    assert(frame == sent.last());
    assert forall|i: int| 0 <= i < before.len() implies (#[trigger] before[i]).op_code is DataCode
        || is_ping_or_pong(before[i]) by {
        assert(before[i] == frames[i]);
    }
    receiving_in_the_middle(before, message_type, payload, size);
    joined_with_one_more(data_frames(before), frame);
    assert(data_frames(before).push(frame) =~= sent);
    pings_and_pongs_are_such(frames);
    assert(pings_and_pongs(frames) == pings_and_pongs(before));
    let handed = handed_up(frames);
    assert(handed =~= pings_and_pongs(frames).push(
        Handed { item: message_item(message_type), buffer: payload },
    ));
    pings_and_pongs_end_nothing(reader, handed);
}

/// Data frames alone hold no pings and pongs.
proof fn data_frames_alone(frames: Seq<Frame<Seq<u8>>>)
    requires
        forall|i: int| 0 <= i < frames.len() ==> (#[trigger] frames[i]).op_code is DataCode,
    ensures
        data_frames(frames) == frames,
        pings_and_pongs(frames).len() == 0,
    decreases frames.len(),
{
    if frames.len() > 0 {
        let before = frames.drop_last();
        assert(forall|i: int| 0 <= i < before.len() ==> #[trigger] before[i] == frames[i]);
        assert(frames.last() == frames[frames.len() - 1]);
        data_frames_alone(before);
        assert(before.push(frames.last()) =~= frames);
    }
}

/// What one side writes in fragments, the other side reads as one message of the same type and with
/// the same payload, whatever the size of the fragments, where its extension undoes that of the
/// writing side.
pub proof fn what_is_fragmented_is_read(
    writer: Session,
    reader: Session,
    payload: Seq<u8>,
    message_type: MessageType,
    size: nat,
    through: spec_fn(Seq<u8>) -> Seq<u8>,
)
    requires
        !writer.closed,
        size > 0,
        message_type is Text ==> vstd::utf8::valid_utf8(payload),
        undone(through),
    ensures
        writer.fragments_result(payload, message_type, size) matches Ok(frames) && {
            let handed = handed_up(carried(frames, through));
            &&& handed == seq![Handed { item: message_item(message_type), buffer: payload }]
            &&& reader.read_action(ReadEventView::Received(handed[0].item))
                == ReadActionView::Return(
                Ok(whole_message(message_type)),
            )
        },
{
    let frames = fragments(message_type.spec_op_code(), payload, size);
    shape_of_fragments(message_type.spec_op_code(), payload, size);
    assert forall|i: int| 0 <= i < frames.len() implies (#[trigger] frames[i]).op_code
        is DataCode by {
        if i > 0 {
            assert(frames[i].op_code == OpCode::DataCode(DataCode::Continuation));
        }
    }
    data_frames_alone(frames);
    control_frames_interleave(writer, reader, payload, message_type, size, frames, through);
    assert(handed_up(carried(frames, through)) =~= seq![
        Handed { item: message_item(message_type), buffer: payload },
    ]);
}

/// A ping and its answer, where the extension of either side undoes that of the other: the side that
/// pings remembers the ping, the other side answers it and
/// stays as it was, and the side that pinged reads the pong with the payload of its ping and
/// remembers nothing any more.
pub proof fn ping_pong(
    pinging: Session,
    pinged: Session,
    payload: Seq<u8>,
    through: spec_fn(Seq<u8>) -> Seq<u8>,
)
    requires
        undone(through),
        !pinging.closed,
        payload.len() <= CONTROL_MAX_SIZE,
    ensures
        ({
            let waiting = pinging.after_write(payload, PayloadType::Ping);
            let ping = caller_frame(OpCode::ControlCode(ControlCode::Ping), true, payload);
            let pong = control_frame(ControlCode::Pong, payload);
            let ping_in = ReadEventView::Received(ItemView::Ping(payload));
            let pong_in = ReadEventView::Received(ItemView::Pong(payload));
            &&& pinging.write_result(payload, PayloadType::Ping) == Ok::<
                Frame<Seq<u8>>,
                Error,
            >(ping)
            &&& waiting.control == payload
            &&& handed_up(carried(seq![ping], through)) == seq![
                Handed { item: ItemView::Ping(payload), buffer: Seq::empty() },
            ]
            &&& pinged.read_action(ping_in) == (ReadActionView::Reply {
                reply: ReplyView::Frame(pong),
                result: Ok(MessageView::Ping(payload)),
            })
            &&& pinged.after_read(ping_in) == pinged
            &&& handed_up(carried(seq![pong], through)) == seq![
                Handed { item: ItemView::Pong(payload), buffer: Seq::empty() },
            ]
            &&& waiting.read_action(pong_in) == ReadActionView::Return(
                Ok(MessageView::Pong(payload)),
            )
            &&& waiting.after_read(pong_in) == (Session {
                control: Seq::empty(),
                closed: false,
            })
        }),
{
    let ping = caller_frame(OpCode::ControlCode(ControlCode::Ping), true, payload);
    let pong = control_frame(ControlCode::Pong, payload);
    carried_unchanged(seq![ping], through);
    carried_unchanged(seq![pong], through);
    handed_up_for_one(ping);
    handed_up_for_one(pong);
    assert(handed_up(seq![ping]) =~= seq![
        Handed { item: ItemView::Ping(payload), buffer: Seq::empty() },
    ]);
    assert(handed_up(seq![pong]) =~= seq![
        Handed { item: ItemView::Pong(payload), buffer: Seq::empty() },
    ]);
}

} // verus!
