//! Framing of one serial read: a payload followed by a two-byte terminator.

use vstd::prelude::*;
use vstd::utf8::{decode_utf8, valid_utf8};

verus! {

/// Number of bytes that close every frame (a line-ending pair).
pub const TERMINATOR_LEN: usize = 2;

/// Why the bytes of one read do not yield the text of a sample.
#[derive(Debug, Clone, Copy, PartialEq, Eq, Structural)]
pub enum PayloadError {
    /// The read holds nothing besides (at most) the terminator.
    TooShort,
    /// The bytes before the terminator are not valid UTF-8.
    NotText,
}

/// The bytes of a frame before its terminator.
pub open spec fn payload_of(frame: Seq<u8>) -> Seq<u8> {
    frame.subrange(0, frame.len() - TERMINATOR_LEN as int)
}

/// What a frame decodes to: the text of its payload, or why it has none.
pub open spec fn frame_result(frame: Seq<u8>) -> Result<Seq<char>, PayloadError> {
    if frame.len() <= TERMINATOR_LEN {
        Err(PayloadError::TooShort)
    } else if !valid_utf8(payload_of(frame)) {
        Err(PayloadError::NotText)
    } else {
        Ok(decode_utf8(payload_of(frame)))
    }
}

/// Relies on std::str::from_utf8: it succeeds exactly on valid UTF-8, and the
/// text it gives is what those bytes encode.
#[verifier::external_body]
fn utf8_text(bytes: &[u8]) -> (r: Option<String>)
    ensures
        r is Some <==> valid_utf8(bytes@),
        r matches Some(s) ==> s@ == decode_utf8(bytes@),
{
    match std::str::from_utf8(bytes) {
        Ok(s) => Some(s.to_string()),
        Err(_) => None,
    }
}

/// Strips the terminator from one frame and decodes the rest as text.
pub fn frame_text(frame: &[u8]) -> (r: Result<String, PayloadError>)
    ensures
        match r {
            Ok(s) => frame_result(frame@) == Ok::<Seq<char>, PayloadError>(s@),
            Err(e) => frame_result(frame@) == Err::<Seq<char>, PayloadError>(e),
        },
{
    let n = frame.len();
    if n <= TERMINATOR_LEN {
        return Err(PayloadError::TooShort);
    }
    let payload = &frame[0..n - TERMINATOR_LEN];
    assert(payload@ == payload_of(frame@));
    match utf8_text(payload) {
        Some(s) => Ok(s),
        None => Err(PayloadError::NotText),
    }
}

} // verus!
