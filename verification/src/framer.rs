//! Reassembly of line-delimited sentences from a byte stream.
//!
//! A sentence starts at a `$` and ends with the carriage return that follows
//! it. It is collected in a buffer of [`CAPACITY`] bytes; a sentence that does
//! not fit is cut off at the capacity and handed out marked as truncated.

use crate::buffer::{ByteBuffer, CAPACITY};
use vstd::prelude::*;

verus! {

/// The byte that starts a sentence, `$`.
pub const START: u8 = 36;

/// The byte that ends a sentence, a carriage return.
pub const TERMINATOR: u8 = 13;

/// The byte that stands in for one that could not be read, `x`.
pub const READ_ERROR_SENTINEL: u8 = 120;

/// Whether a sentence is being collected.
#[derive(Clone, Copy, Debug, PartialEq, Eq)]
pub enum CaptureState {
    /// No sentence is in progress: bytes are dropped until the next `$`.
    Idle,
    /// A `$` was seen and bytes are being collected.
    Capturing,
}

/// What a framer is, as a mathematical value.
pub struct FramerModel {
    pub capturing: bool,
    pub buffer: Seq<u8>,
}

/// What a completed sentence is, as a mathematical value.
pub struct SentenceModel {
    /// The bytes from the `$` on, the terminator included when it was stored.
    pub bytes: Seq<u8>,
    /// True when the buffer was full and the byte that arrived was dropped.
    pub truncated: bool,
}

/// The framer before any byte: idle, with an empty buffer.
pub open spec fn fresh() -> FramerModel {
    FramerModel { capturing: false, buffer: Seq::<u8>::empty() }
}

/// One byte's effect: the framer afterwards and the sentence completed by
/// this byte, if any.
pub open spec fn step(m: FramerModel, byte: u8) -> (FramerModel, Option<SentenceModel>) {
    if byte == START {
        (FramerModel { capturing: true, buffer: seq![START] }, None)
    } else if !m.capturing {
        (m, None)
    } else if m.buffer.len() >= CAPACITY {
        (fresh(), Some(SentenceModel { bytes: m.buffer, truncated: true }))
    } else if byte == TERMINATOR {
        (fresh(), Some(SentenceModel { bytes: m.buffer.push(byte), truncated: false }))
    } else {
        (FramerModel { capturing: true, buffer: m.buffer.push(byte) }, None)
    }
}

/// Bytes that may stand in the buffer while a sentence is collected: at most
/// [`CAPACITY`] of them, a `$` first, and neither a `$` nor a terminator after.
pub open spec fn partial_sentence(bytes: Seq<u8>) -> bool {
    &&& 1 <= bytes.len() <= CAPACITY
    &&& bytes[0] == START
    &&& forall|i: int| 1 <= i < bytes.len() ==> #[trigger] bytes[i] != START
    &&& forall|i: int| 0 <= i < bytes.len() ==> #[trigger] bytes[i] != TERMINATOR
}

/// The states that a framer can be in.
pub open spec fn framer_inv(m: FramerModel) -> bool {
    if m.capturing {
        partial_sentence(m.buffer)
    } else {
        m.buffer.len() == 0
    }
}

/// What holds of every sentence that a framer hands out: it starts with the
/// only `$` it contains and fits the buffer; unless truncated it ends with the
/// only terminator it contains, and a truncated one fills the buffer and
/// contains no terminator.
pub open spec fn emitted_sentence(s: SentenceModel) -> bool {
    &&& 1 <= s.bytes.len() <= CAPACITY
    &&& s.bytes[0] == START
    &&& forall|i: int| 1 <= i < s.bytes.len() ==> #[trigger] s.bytes[i] != START
    &&& forall|i: int| 0 <= i < s.bytes.len() - 1 ==> #[trigger] s.bytes[i] != TERMINATOR
    &&& s.truncated ==> s.bytes.len() == CAPACITY && s.bytes.last() != TERMINATOR
    &&& !s.truncated ==> s.bytes.last() == TERMINATOR
}

/// A completed sentence, as the framer hands it out.
pub struct Sentence {
    bytes: ByteBuffer,
    truncated: bool,
}

impl View for Sentence {
    type V = SentenceModel;

    closed spec fn view(&self) -> SentenceModel {
        SentenceModel { bytes: self.bytes@, truncated: self.truncated }
    }
}

impl Sentence {
    /// The bytes of the sentence.
    pub fn as_bytes(&self) -> (bytes: &[u8])
        ensures
            bytes@ == self@.bytes,
    {
        self.bytes.as_slice()
    }

    /// The number of bytes in the sentence.
    pub fn len(&self) -> (n: usize)
        ensures
            n == self@.bytes.len(),
    {
        self.bytes.as_slice().len()
    }

    /// Whether the sentence was cut off because the buffer was full.
    pub fn is_truncated(&self) -> (t: bool)
        ensures
            t == self@.truncated,
    {
        self.truncated
    }
}

/// The model of what `feed` returns.
pub open spec fn sentence_view(out: Option<Sentence>) -> Option<SentenceModel> {
    match out {
        Some(s) => Some(s@),
        None => None,
    }
}

/// The byte to feed for the outcome of one read: the byte read, or
/// [`READ_ERROR_SENTINEL`] in place of a read error.
pub fn byte_or_sentinel<E>(read: Result<u8, E>) -> (byte: u8)
    ensures
        byte == (match read {
            Ok(b) => b,
            Err(_) => READ_ERROR_SENTINEL,
        }),
{
    match read {
        Ok(b) => b,
        Err(_) => READ_ERROR_SENTINEL,
    }
}

/// Collects the bytes of one sentence at a time.
pub struct SentenceFramer {
    state: CaptureState,
    buffer: ByteBuffer,
}

impl View for SentenceFramer {
    type V = FramerModel;

    closed spec fn view(&self) -> FramerModel {
        FramerModel { capturing: self.state is Capturing, buffer: self.buffer@ }
    }
}

impl SentenceFramer {
    /// Whether the framer is in a state that a new framer can reach.
    pub open spec fn wf(&self) -> bool {
        framer_inv(self@)
    }

    /// A framer that has seen no byte.
    pub fn new() -> (framer: SentenceFramer)
        ensures
            framer@ == fresh(),
            framer.wf(),
    {
        SentenceFramer { state: CaptureState::Idle, buffer: ByteBuffer::new() }
    }

    /// Whether a sentence is being collected.
    pub fn state(&self) -> (state: CaptureState)
        ensures
            state is Capturing <==> self@.capturing,
    {
        self.state
    }

    /// The bytes collected so far of the sentence in progress.
    pub fn pending(&self) -> (bytes: &[u8])
        ensures
            bytes@ == self@.buffer,
    {
        self.buffer.as_slice()
    }

    /// Takes the next byte of the stream and returns the sentence that it
    /// completes, if it completes one.
    ///
    /// A `$` always starts a new sentence: what was collected before it is
    /// dropped and never handed out. A sentence is complete when its terminator
    /// has been stored, or when the buffer is full and one more byte arrives:
    /// that byte is dropped and the sentence is marked as truncated. After a
    /// completed sentence the framer is as new.
    pub fn feed(&mut self, byte: u8) -> (out: Option<Sentence>)
        ensures
            final(self)@ == step(old(self)@, byte).0,
            sentence_view(out) == step(old(self)@, byte).1,
            old(self).wf() ==> final(self).wf(),
            old(self).wf() ==> final(self)@.buffer.len() <= CAPACITY,
            old(self).wf() && out is Some ==> emitted_sentence(out->Some_0@),
    {
        proof {
            if self.wf() {
                lemma_step_keeps_inv(self@, byte);
            }
        }
        if byte == START {
            self.buffer.clear();
            self.state = CaptureState::Capturing;
        }
        match self.state {
            CaptureState::Idle => None,
            CaptureState::Capturing => {
                let pushed = self.buffer.push(byte);
                let truncated = pushed.is_err();
                if truncated || byte == TERMINATOR {
                    let mut bytes = ByteBuffer::new();
                    core::mem::swap(&mut self.buffer, &mut bytes);
                    self.state = CaptureState::Idle;
                    Some(Sentence { bytes, truncated })
                } else {
                    None
                }
            },
        }
    }
}

/// Every step leads from a reachable state to a reachable state, and what it
/// hands out is a sentence as [`emitted_sentence`] describes it.
pub proof fn lemma_step_keeps_inv(m: FramerModel, byte: u8)
    requires
        framer_inv(m),
    ensures
        framer_inv(step(m, byte).0),
        step(m, byte).0.buffer.len() <= CAPACITY,
        step(m, byte).1 matches Some(s) ==> emitted_sentence(s),
{
    if byte == START {
        assert(seq![START][0] == START);
    } else if m.capturing {
        if m.buffer.len() < CAPACITY {
            let grown = m.buffer.push(byte);
            assert(grown[0] == m.buffer[0]);
            assert forall|i: int| 1 <= i < grown.len() implies #[trigger] grown[i] != START by {
                if i < m.buffer.len() {
                    assert(grown[i] == m.buffer[i]);
                }
            }
            assert forall|i: int| 0 <= i < grown.len() - 1 implies #[trigger] grown[i]
                != TERMINATOR by {
                assert(grown[i] == m.buffer[i]);
            }
        }
    }
}

} // verus!
