//! Composition of the frame that is handed to the radio.
//!
//! A frame is the sender's identifier and a space, where an identifier is
//! configured, followed by the payload. It has room for [`CAPACITY`] bytes.

use crate::buffer::{ByteBuffer, CAPACITY};
use crate::extractor::{Payload, PayloadModel};
use vstd::prelude::*;

verus! {

/// The byte between the parts of a frame, a space.
pub const SEPARATOR: u8 = 32;

/// Why a frame could not be composed.
#[derive(Clone, Copy, Debug, PartialEq, Eq)]
pub enum ComposeError {
    /// Identifier and payload together have more bytes than a frame holds.
    Overflow,
}

/// What precedes the payload: the identifier and one separator, or nothing
/// where no identifier is configured.
pub open spec fn prefix_bytes(sender_id: Option<Seq<u8>>) -> Seq<u8> {
    match sender_id {
        Some(id) => id.push(SEPARATOR),
        None => Seq::<u8>::empty(),
    }
}

/// The bytes of a payload as they are sent: a sentence as it is, two fields
/// with one separator between them.
pub open spec fn payload_bytes(payload: PayloadModel) -> Seq<u8> {
    match payload {
        PayloadModel::Full(s) => s,
        PayloadModel::Fields(a, b) => a.push(SEPARATOR) + b,
    }
}

/// The frame for an identifier and a payload.
pub open spec fn composed(sender_id: Option<Seq<u8>>, payload: PayloadModel) -> Seq<u8> {
    prefix_bytes(sender_id) + payload_bytes(payload)
}

/// The model of an identifier that may be absent.
pub open spec fn id_view(sender_id: Option<&[u8]>) -> Option<Seq<u8>> {
    match sender_id {
        Some(id) => Some(id@),
        None => None,
    }
}

/// The bytes of one transmission.
pub struct OutgoingFrame {
    bytes: ByteBuffer,
}

impl View for OutgoingFrame {
    type V = Seq<u8>;

    closed spec fn view(&self) -> Seq<u8> {
        self.bytes@
    }
}

impl OutgoingFrame {
    /// An empty frame.
    pub fn new() -> (frame: OutgoingFrame)
        ensures
            frame@ == Seq::<u8>::empty(),
    {
        OutgoingFrame { bytes: ByteBuffer::new() }
    }

    /// The bytes of the frame.
    pub fn as_bytes(&self) -> (bytes: &[u8])
        ensures
            bytes@ == self@,
    {
        self.bytes.as_slice()
    }

    /// The number of bytes in the frame.
    pub fn len(&self) -> (n: usize)
        ensures
            n == self@.len(),
    {
        self.bytes.as_slice().len()
    }
}

/// Appends `bytes` to `buffer` as far as they fit and says whether all did.
fn append(buffer: &mut ByteBuffer, bytes: &[u8]) -> (fits: bool)
    requires
        old(buffer)@.len() <= CAPACITY,
    ensures
        fits <==> old(buffer)@.len() + bytes@.len() <= CAPACITY,
        fits ==> final(buffer)@ == old(buffer)@ + bytes@,
        final(buffer)@.len() <= CAPACITY,
{
    let mut i: usize = 0;
    while i < bytes.len()
        invariant
            i <= bytes@.len(),
            buffer@ == old(buffer)@ + bytes@.take(i as int),
            buffer@.len() <= CAPACITY,
        decreases bytes@.len() - i,
    {
        if buffer.push(bytes[i]).is_err() {
            return false;
        }
        proof {
            assert(bytes@.take(i + 1) == bytes@.take(i as int).push(bytes@[i as int]));
            assert(buffer@ =~= old(buffer)@ + bytes@.take(i + 1));
        }
        i += 1;
    }
    proof {
        assert(bytes@.take(i as int) == bytes@);
    }
    true
}

/// Composes the frame for one payload.
///
/// The frame is emptied first. Then the identifier and a separator are
/// appended, where an identifier is given, and after them the payload: a
/// sentence as it is, or the two fields with a separator between them. Where
/// all of that has more than [`CAPACITY`] bytes nothing is composed: the frame
/// is left empty and the overflow is reported.
pub fn compose(sender_id: Option<&[u8]>, payload: &Payload, frame: &mut OutgoingFrame) -> (done:
    Result<(), ComposeError>)
    ensures
        done is Ok <==> composed(id_view(sender_id), payload@).len() <= CAPACITY,
        done is Ok ==> final(frame)@ == composed(id_view(sender_id), payload@),
        done is Err ==> done == Err::<(), ComposeError>(ComposeError::Overflow) && final(frame)@
            == Seq::<u8>::empty(),
        final(frame)@.len() <= CAPACITY,
{
    frame.bytes.clear();
    let mut fits = true;
    if let Some(id) = sender_id {
        fits = append(&mut frame.bytes, id);
        if fits {
            fits = frame.bytes.push(SEPARATOR).is_ok();
        }
    }
    assert(fits ==> frame@ == prefix_bytes(id_view(sender_id)));
    assert(!fits ==> prefix_bytes(id_view(sender_id)).len() > CAPACITY);
    if fits {
        match *payload {
            Payload::Full(sentence) => {
                fits = append(&mut frame.bytes, sentence);
            },
            Payload::Fields(northing, easting) => {
                fits = append(&mut frame.bytes, northing);
                if fits {
                    fits = frame.bytes.push(SEPARATOR).is_ok();
                }
                if fits {
                    assert(frame@ == prefix_bytes(id_view(sender_id)) + northing@.push(SEPARATOR));
                    fits = append(&mut frame.bytes, easting);
                }
                assert(fits ==> frame@ =~= prefix_bytes(id_view(sender_id)) + (northing@.push(
                    SEPARATOR,
                ) + easting@));
            },
        }
    }
    if fits {
        Ok(())
    } else {
        frame.bytes.clear();
        Err(ComposeError::Overflow)
    }
}

} // verus!
