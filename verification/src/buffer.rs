//! A fixed-capacity byte buffer, backed by `heapless::Vec<u8, 80>`.
//!
//! The vector itself is opaque to the verifier. What it holds has a name,
//! [`buffer_bytes`], and the functions below say what each `heapless` call
//! does to that sequence. Everything else in the crate is proved from these
//! statements.

use vstd::prelude::*;

verus! {

/// Number of bytes that a sentence buffer or an outgoing frame can hold.
pub const CAPACITY: usize = 80;

/// A byte vector with room for [`CAPACITY`] bytes and no heap allocation: a
/// `heapless::Vec<u8, 80>`, whose inside the verifier does not look at.
#[verifier::external_body]
pub struct ByteBuffer {
    inner: heapless::Vec<u8, 80>,
}

/// The bytes that a buffer holds, oldest first.
pub uninterp spec fn buffer_bytes(buffer: ByteBuffer) -> Seq<u8>;

impl View for ByteBuffer {
    type V = Seq<u8>;

    open spec fn view(&self) -> Seq<u8> {
        buffer_bytes(*self)
    }
}

impl ByteBuffer {
    /// `heapless::Vec::new`: a vector that holds nothing.
    #[verifier::external_body]
    pub(crate) fn new() -> (buffer: ByteBuffer)
        ensures
            buffer_bytes(buffer) == Seq::<u8>::empty(),
    {
        ByteBuffer { inner: heapless::Vec::new() }
    }

    /// `heapless::Vec::clear`: the vector holds nothing afterwards.
    #[verifier::external_body]
    pub(crate) fn clear(&mut self)
        ensures
            buffer_bytes(*final(self)) == Seq::<u8>::empty(),
    {
        self.inner.clear()
    }

    /// `heapless::Vec::push`: while fewer than 80 bytes are held the byte is
    /// appended and `Ok(())` returned; a full vector is left as it was and the
    /// byte is handed back in `Err`.
    #[verifier::external_body]
    pub(crate) fn push(&mut self, byte: u8) -> (pushed: Result<(), u8>)
        ensures
            pushed is Ok <==> buffer_bytes(*old(self)).len() < 80,
            pushed is Err ==> pushed->Err_0 == byte,
            buffer_bytes(*final(self)) == (if buffer_bytes(*old(self)).len() < 80 {
                buffer_bytes(*old(self)).push(byte)
            } else {
                buffer_bytes(*old(self))
            }),
    {
        self.inner.push(byte)
    }

    /// `heapless::Vec::as_slice`: the held bytes, in order.
    #[verifier::external_body]
    pub(crate) fn as_slice(&self) -> (bytes: &[u8])
        ensures
            bytes@ == buffer_bytes(*self),
    {
        self.inner.as_slice()
    }
}

} // verus!
