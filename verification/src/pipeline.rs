//! From a byte of the stream to a frame that is ready to be sent.

use crate::buffer::CAPACITY;
use crate::composer::{compose, composed, id_view, prefix_bytes, ComposeError, OutgoingFrame};
use crate::extractor::{extract, extract_spec, is_positioning, Payload};
use crate::framer::{step, SentenceFramer};
use vstd::prelude::*;

verus! {

/// Number of bytes that the two coordinate fields and the separator between
/// them take in a frame.
pub const POSITION_PAYLOAD_LEN: usize = 26;

/// What a frame carries.
#[derive(Clone, Copy, Debug, PartialEq, Eq)]
pub enum FrameKind {
    /// The coordinate fields of a positioning sentence.
    Position,
    /// A sentence as it came.
    Passthrough,
}

/// A frame that has been composed for a completed sentence.
#[derive(Clone, Copy, Debug, PartialEq, Eq)]
pub struct ReadyFrame {
    /// What the frame carries.
    pub kind: FrameKind,
    /// Whether the sentence behind it was cut off at the buffer's capacity.
    pub truncated: bool,
}

/// The kind of frame that a sentence gives.
pub open spec fn kind_of(sentence: Seq<u8>) -> FrameKind {
    if is_positioning(sentence) {
        FrameKind::Position
    } else {
        FrameKind::Passthrough
    }
}

/// The frame for a sentence: the identifier part followed by the payload that
/// is cut out of the sentence.
pub open spec fn frame_of(sender_id: Option<Seq<u8>>, sentence: Seq<u8>) -> Seq<u8> {
    composed(sender_id, extract_spec(sentence))
}

/// Composes the frame for one completed sentence: cuts out its payload and
/// puts the identifier in front. Reports an overflow, and leaves the frame
/// empty, where the result has more than [`CAPACITY`] bytes.
pub fn frame_sentence(sender_id: Option<&[u8]>, sentence: &[u8], frame: &mut OutgoingFrame) -> (done:
    Result<FrameKind, ComposeError>)
    ensures
        done is Ok <==> frame_of(id_view(sender_id), sentence@).len() <= CAPACITY,
        done matches Ok(kind) ==> kind == kind_of(sentence@) && final(frame)@ == frame_of(
            id_view(sender_id),
            sentence@,
        ),
        done matches Err(e) ==> e == ComposeError::Overflow && final(frame)@ == Seq::<u8>::empty(),
{
    let payload = extract(sentence);
    match compose(sender_id, &payload, frame) {
        Ok(_) => {
            match payload {
                Payload::Fields(_, _) => Ok(FrameKind::Position),
                Payload::Full(_) => Ok(FrameKind::Passthrough),
            }
        },
        Err(e) => Err(e),
    }
}

/// Takes the next byte of the stream. Where it completes a sentence, the frame
/// for that sentence is composed and described in the result; where it does
/// not, the frame is left as it was.
pub fn process_byte(
    framer: &mut SentenceFramer,
    sender_id: Option<&[u8]>,
    byte: u8,
    frame: &mut OutgoingFrame,
) -> (done: Result<Option<ReadyFrame>, ComposeError>)
    ensures
        final(framer)@ == step(old(framer)@, byte).0,
        old(framer).wf() ==> final(framer).wf(),
        match step(old(framer)@, byte).1 {
            None => done == Ok::<Option<ReadyFrame>, ComposeError>(None) && final(frame)@ == old(
                frame,
            )@,
            Some(s) => if frame_of(id_view(sender_id), s.bytes).len() <= CAPACITY {
                &&& done == Ok::<Option<ReadyFrame>, ComposeError>(
                    Some(ReadyFrame { kind: kind_of(s.bytes), truncated: s.truncated }),
                )
                &&& final(frame)@ == frame_of(id_view(sender_id), s.bytes)
            } else {
                &&& done == Err::<Option<ReadyFrame>, ComposeError>(ComposeError::Overflow)
                &&& final(frame)@ == Seq::<u8>::empty()
            },
        },
{
    match framer.feed(byte) {
        None => Ok(None),
        Some(sentence) => {
            let truncated = sentence.is_truncated();
            match frame_sentence(sender_id, sentence.as_bytes(), frame) {
                Ok(kind) => Ok(Some(ReadyFrame { kind, truncated })),
                Err(e) => Err(e),
            }
        },
    }
}

/// The frame of a positioning sentence has the length of the identifier part
/// and [`POSITION_PAYLOAD_LEN`] bytes more, however long the sentence is.
pub proof fn lemma_position_frame_len(sender_id: Option<Seq<u8>>, sentence: Seq<u8>)
    requires
        is_positioning(sentence),
    ensures
        frame_of(sender_id, sentence).len() == prefix_bytes(sender_id).len()
            + POSITION_PAYLOAD_LEN,
{
}

/// The frame of any other sentence has the length of the identifier part and
/// of the sentence.
pub proof fn lemma_passthrough_frame_len(sender_id: Option<Seq<u8>>, sentence: Seq<u8>)
    requires
        !is_positioning(sentence),
    ensures
        frame_of(sender_id, sentence).len() == prefix_bytes(sender_id).len() + sentence.len(),
{
}

/// An identifier part and a sentence that together fit a frame give a frame
/// that fits: cutting out the fields never makes a frame longer.
pub proof fn lemma_frame_fits(sender_id: Option<Seq<u8>>, sentence: Seq<u8>)
    requires
        prefix_bytes(sender_id).len() + sentence.len() <= CAPACITY,
    ensures
        frame_of(sender_id, sentence).len() <= CAPACITY,
{
}

/// With an identifier of at most 53 bytes the frame of a positioning sentence
/// fits, whatever the sentence.
pub proof fn lemma_position_frame_fits(sender_id: Seq<u8>, sentence: Seq<u8>)
    requires
        is_positioning(sentence),
        sender_id.len() + 1 + POSITION_PAYLOAD_LEN <= CAPACITY,
    ensures
        frame_of(Some(sender_id), sentence).len() <= CAPACITY,
{
}

} // verus!
