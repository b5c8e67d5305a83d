//! Message types shared with the publishing side, and CDR framing of serialized messages.
use vstd::prelude::*;

verus! {

/// A time stamp: seconds and nanoseconds.
#[derive(Clone, Copy, Debug, PartialEq, Eq)]
pub struct Time {
    pub sec: i32,
    pub nsec: i32,
}

/// A message header: time stamp and coordinate frame.
#[derive(Clone, Debug, PartialEq, Eq)]
pub struct Header {
    pub stamp: Time,
    pub frame_id: String,
}

/// A compressed camera image (JPEG bytes).
#[derive(Clone, Debug, PartialEq, Eq)]
pub struct CompressedImage {
    pub header: Header,
    pub format: String,
    pub data: Vec<u8>,
}

/// The encapsulation header of a little-endian CDR message: the CDR_LE identifier and no
/// options.
pub open spec fn spec_cdr_le_header() -> Seq<u8> {
    seq![0x00u8, 0x01u8, 0x00u8, 0x00u8]
}

/// Frames a little-endian CDR payload as a message: the encapsulation header, then the
/// payload.
pub fn cdr_le_message(payload: &[u8]) -> (message: Vec<u8>)
    requires
        payload.len() + 4 <= usize::MAX,
    ensures
        message@ == spec_cdr_le_header() + payload@,
{
    let mut message: Vec<u8> = Vec::new();
    message.push(0x00);
    message.push(0x01);
    message.push(0x00);
    message.push(0x00);
    let mut i: usize = 0;
    while i < payload.len()
        invariant
            i <= payload.len(),
            message@ == spec_cdr_le_header() + payload@.take(i as int),
        decreases payload.len() - i,
    {
        message.push(payload[i]);
        i = i + 1;
        assert(spec_cdr_le_header() + payload@.take(i as int) =~= (spec_cdr_le_header()
            + payload@.take(i - 1)).push(payload@[i - 1]));
    }
    assert(payload@.take(payload.len() as int) =~= payload@);
    message
}

} // verus!
