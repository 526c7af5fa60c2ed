//! Frames: a sealed message on the wire, behind its length.

use vstd::prelude::*;

verus! {

/// Bytes of the length that precedes the payload of a frame.
pub const FRAME_LENGTH_SIZE: usize = 3;

/// The shortest payload that no longer fits in a frame.
pub const FRAME_MAX_SIZE: usize = 0x100_0000;

/// A payload length as it stands in a frame: three bytes, the most significant first.
pub open spec fn frame_length(len: nat) -> Seq<u8> {
    seq![(len / 0x1_0000) as u8, (len / 0x100 % 0x100) as u8, (len % 0x100) as u8]
}

/// A frame: the length of the payload, then the payload.
pub open spec fn frame_of(payload: Seq<u8>) -> Seq<u8> {
    frame_length(payload.len()) + payload
}

/// The decimal digits of a number, the most significant first.
pub open spec fn decimal(n: nat) -> Seq<char>
    decreases n,
{
    let digit = ((n % 10) + ('0' as nat)) as char;
    if n < 10 {
        seq![digit]
    } else {
        decimal(n / 10).push(digit)
    }
}

/// What a payload that does not fit in a frame is refused with.
pub open spec fn frame_error_text(len: nat) -> Seq<char> {
    "Frame is too large (max: 16777216, got: "@ + decimal(len) + ")"@
}

/// Trusted: `wacore::framing::encode_frame_into`, without a header, writes the frame of a payload
/// into `out`, in place of what was there. It refuses just the payloads that do not fit in a frame,
/// with an error whose text names their length, and then leaves `out` alone.
#[verifier::external_body]
pub(crate) fn encode_frame(payload: &[u8], out: &mut Vec<u8>) -> (result: Result<(), String>)
    ensures
        result is Ok <==> payload@.len() < FRAME_MAX_SIZE,
        result is Ok ==> final(out)@ == frame_of(payload@),
        result is Err ==> final(out)@ == old(out)@,
        result matches Err(text) ==> text@ == frame_error_text(payload@.len()),
{
    match wacore::framing::encode_frame_into(payload, None, out) {
        Ok(()) => Ok(()),
        Err(e) => Err(e.to_string()),
    }
}

} // verus!
