//! Text of a received packet, for a diagnostic channel.

use vstd::prelude::*;
use vstd::string::StringSliceAdditionalSpecFns;
use vstd::utf8::valid_utf8;

verus! {

/// What is shown in place of a packet that is no text.
pub open spec fn not_text_notice() -> Seq<char> {
    "problem converting u8 to str "@
}

/// `core::str::from_utf8`: the bytes as a string slice where they are valid
/// UTF-8, and nothing where they are not. The string has the bytes it was
/// made of.
#[verifier::external_body]
fn utf8_text(bytes: &[u8]) -> (text: Option<&str>)
    ensures
        text is Some <==> valid_utf8(bytes@),
        text matches Some(s) ==> s.spec_bytes() == bytes@,
{
    core::str::from_utf8(bytes).ok()
}

/// The packet as text: the bytes themselves where they are valid UTF-8, and a
/// fixed notice where they are not.
pub fn to_str(x: &[u8]) -> (text: &str)
    ensures
        valid_utf8(x@) ==> text.spec_bytes() == x@,
        !valid_utf8(x@) ==> text@ == not_text_notice(),
{
    match utf8_text(x) {
        Some(text) => text,
        None => "problem converting u8 to str ",
    }
}

} // verus!
