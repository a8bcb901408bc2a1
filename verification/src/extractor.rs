//! Selection of the coordinate fields of a positioning sentence.
//!
//! The fields are cut out at fixed byte offsets. A sentence whose fields have
//! another width than the usual yields bytes from the same offsets all the
//! same: the offsets are not derived from the separators.

use vstd::prelude::*;
use vstd::slice::slice_subrange;

verus! {

/// A positioning sentence has more bytes than this.
pub const MIN_POSITIONING_LEN: usize = 45;

/// Length of the tag that a sentence begins with.
pub const TAG_LEN: usize = 6;

/// First byte of the north/south coordinate field.
pub const NORTHING_START: usize = 19;

/// One past the last byte of the north/south coordinate field.
pub const NORTHING_END: usize = 31;

/// First byte of the east/west coordinate field.
pub const EASTING_START: usize = 32;

/// One past the last byte of the east/west coordinate field.
pub const EASTING_END: usize = 45;

/// The tag of a positioning sentence, `$GPRMC`.
pub open spec fn positioning_tag() -> Seq<u8> {
    seq![36u8, 71u8, 80u8, 82u8, 77u8, 67u8]
}

/// Whether a sentence is taken for a positioning sentence: it has more than
/// [`MIN_POSITIONING_LEN`] bytes and begins with [`positioning_tag`].
pub open spec fn is_positioning(sentence: Seq<u8>) -> bool {
    sentence.len() > MIN_POSITIONING_LEN && sentence.subrange(0, TAG_LEN as int)
        == positioning_tag()
}

/// What is sent for a sentence, as a mathematical value.
pub enum PayloadModel {
    Full(Seq<u8>),
    Fields(Seq<u8>, Seq<u8>),
}

/// The payload of a sentence: the two coordinate fields of a positioning
/// sentence, and any other sentence whole.
pub open spec fn extract_spec(sentence: Seq<u8>) -> PayloadModel {
    if is_positioning(sentence) {
        PayloadModel::Fields(
            sentence.subrange(NORTHING_START as int, NORTHING_END as int),
            sentence.subrange(EASTING_START as int, EASTING_END as int),
        )
    } else {
        PayloadModel::Full(sentence)
    }
}

/// What is sent for a sentence.
#[derive(Clone, Copy, Debug)]
pub enum Payload<'a> {
    /// The sentence as it came.
    Full(&'a [u8]),
    /// The north/south and the east/west coordinate field of a positioning
    /// sentence.
    Fields(&'a [u8], &'a [u8]),
}

impl<'a> View for Payload<'a> {
    type V = PayloadModel;

    open spec fn view(&self) -> PayloadModel {
        match *self {
            Payload::Full(s) => PayloadModel::Full(s@),
            Payload::Fields(a, b) => PayloadModel::Fields(a@, b@),
        }
    }
}

/// Whether the sentence begins with the tag of a positioning sentence and is
/// long enough to hold both coordinate fields.
pub fn has_positioning_form(sentence: &[u8]) -> (yes: bool)
    ensures
        yes == is_positioning(sentence@),
{
    if sentence.len() > MIN_POSITIONING_LEN {
        let matches = sentence[0] == 36 && sentence[1] == 71 && sentence[2] == 80 && sentence[3]
            == 82 && sentence[4] == 77 && sentence[5] == 67;
        proof {
            let head = sentence@.subrange(0, TAG_LEN as int);
            if matches {
                assert(head =~= positioning_tag());
            } else {
                assert(head[0] == sentence@[0] && head[1] == sentence@[1] && head[2] == sentence@[2]
                    && head[3] == sentence@[3] && head[4] == sentence@[4] && head[5]
                    == sentence@[5]);
            }
        }
        matches
    } else {
        false
    }
}

/// Cuts the payload out of a sentence.
///
/// For a positioning sentence the payload is the bytes at offsets 19 to 30 and
/// those at offsets 32 to 44. Every other sentence, one with the tag but too
/// short included, is the payload itself, unchanged.
pub fn extract<'a>(sentence: &'a [u8]) -> (payload: Payload<'a>)
    ensures
        payload@ == extract_spec(sentence@),
        payload is Fields <==> is_positioning(sentence@),
        payload matches Payload::Full(s) ==> s@ == sentence@,
        payload matches Payload::Fields(a, b) ==> a@.len() == 12 && b@.len() == 13,
{
    if has_positioning_form(sentence) {
        let northing = slice_subrange(sentence, NORTHING_START, NORTHING_END);
        let easting = slice_subrange(sentence, EASTING_START, EASTING_END);
        Payload::Fields(northing, easting)
    } else {
        Payload::Full(sentence)
    }
}

} // verus!
