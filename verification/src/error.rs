//! Status codes of the media engine: negative numbers, most of them made
//! of four tag bytes.

use vstd::prelude::*;

verus! {

/// A failure reported by the media engine, by its negative status code.
#[derive(Clone, Copy, Debug, PartialEq, Eq, Structural)]
pub struct Error {
    pub raw: i32,
}

/// Success.
pub const AVERROR_OK: i32 = 0;

/// Bitstream filter not found.
pub const AVERROR_BSF_NOT_FOUND: i32 = -0x465342F8;

/// Internal bug.
pub const AVERROR_BUG: i32 = -0x21475542;

/// Buffer too small.
pub const AVERROR_BUFFER_TOO_SMALL: i32 = -0x53465542;

/// Decoder not found.
pub const AVERROR_DECODER_NOT_FOUND: i32 = -0x434544F8;

/// Demuxer not found.
pub const AVERROR_DEMUXER_NOT_FOUND: i32 = -0x4D4544F8;

/// Encoder not found.
pub const AVERROR_ENCODER_NOT_FOUND: i32 = -0x434E45F8;

/// End of input.
pub const AVERROR_EOF: i32 = -0x20464F45;

/// Immediate exit was requested; the call should not be restarted.
pub const AVERROR_EXIT: i32 = -0x54495845;

/// Generic error in an external library.
pub const AVERROR_EXTERNAL: i32 = -0x20545845;

/// Filter not found.
pub const AVERROR_FILTER_NOT_FOUND: i32 = -0x4C4946F8;

/// Invalid data found when processing input.
pub const AVERROR_INVALIDDATA: i32 = -0x41444E49;

/// Muxer not found.
pub const AVERROR_MUXER_NOT_FOUND: i32 = -0x58554DF8;

/// Option not found.
pub const AVERROR_OPTION_NOT_FOUND: i32 = -0x54504FF8;

/// Not implemented.
pub const AVERROR_PATCHWELCOME: i32 = -0x45574150;

/// Protocol not found.
pub const AVERROR_PROTOCOL_NOT_FOUND: i32 = -0x4F5250F8;

/// Stream not found.
pub const AVERROR_STREAM_NOT_FOUND: i32 = -0x525453F8;

/// Internal bug, with the value of a second lineage.
pub const AVERROR_BUG2: i32 = -0x20475542;

/// Unknown error, typically from an external library.
pub const AVERROR_UNKNOWN: i32 = -0x4E4B4E55;

/// HTTP status 400.
pub const AVERROR_HTTP_BAD_REQUEST: i32 = -0x303034F8;

/// HTTP status 401.
pub const AVERROR_HTTP_UNAUTHORIZED: i32 = -0x313034F8;

/// HTTP status 403.
pub const AVERROR_HTTP_FORBIDDEN: i32 = -0x333034F8;

/// HTTP status 404.
pub const AVERROR_HTTP_NOT_FOUND: i32 = -0x343034F8;

/// Another HTTP status of the 4xx class.
pub const AVERROR_HTTP_OTHER_4XX: i32 = -0x585834F8;

/// An HTTP status of the 5xx class.
pub const AVERROR_HTTP_SERVER_ERROR: i32 = -0x585835F8;

/// The requested feature is flagged experimental.
pub const AVERROR_EXPERIMENTAL: i32 = -0x2bb2afa8;

/// The input changed between calls; reconfiguration is required.
pub const AVERROR_INPUT_CHANGED: i32 = -0x636e6701;

/// The output changed between calls; reconfiguration is required.
pub const AVERROR_OUTPUT_CHANGED: i32 = -0x636e6702;

/// Four bytes as one little-endian number: `a` is the lowest byte.
pub open spec fn spec_mktag(a: u8, b: u8, c: u8, d: u8) -> u32 {
    (a + 256 * b + 65536 * c + 16777216 * d) as u32
}

/// The status code of a tag: the negated tag, read as a signed 32-bit number.
pub open spec fn spec_fferrtag(a: u8, b: u8, c: u8, d: u8) -> int {
    let tag = spec_mktag(a, b, c, d);
    if tag < 0x8000_0000 {
        -(tag as int)
    } else {
        0x1_0000_0000 - tag
    }
}

/// Four bytes as one little-endian number.
#[allow(non_snake_case)]
pub fn MKTAG(a: u8, b: u8, c: u8, d: u8) -> (tag: u32)
    ensures
        tag == spec_mktag(a, b, c, d),
{
    let tag: u32 = (a as u32) | ((b as u32) << 8) | ((c as u32) << 16) | ((d as u32) << 24);
    assert(tag == (a as u32) + 256 * (b as u32) + 65536 * (c as u32) + 16777216 * (d as u32))
        by (bit_vector)
        requires
            tag == (a as u32) | ((b as u32) << 8) | ((c as u32) << 16) | ((d as u32) << 24),
    ;
    tag
}

/// The error whose code is the negated tag of the four bytes. The one tag
/// whose negation is not a 32-bit number is left out.
#[allow(non_snake_case)]
pub fn FFERRTAG(a: u8, b: u8, c: u8, d: u8) -> (error: Error)
    requires
        spec_mktag(a, b, c, d) != 0x8000_0000,
    ensures
        error.raw == spec_fferrtag(a, b, c, d),
{
    let tag: u32 = MKTAG(a, b, c, d);
    if tag < 0x8000_0000 {
        Error { raw: -(tag as i32) }
    } else {
        Error { raw: (0x1_0000_0000u64 - tag as u64) as i32 }
    }
}

/// Splits a status into success and failure: a negative status is the
/// error of that code, any other status is passed on.
pub fn catch_error(status: i32) -> (result: Result<i32, Error>)
    ensures
        status < 0 ==> result == Err::<i32, Error>(Error { raw: status }),
        status >= 0 ==> result == Ok::<i32, Error>(status),
{
    if status < 0 {
        Err(Error { raw: status })
    } else {
        Ok(status)
    }
}

impl Error {
    /// The error of a status code.
    pub fn new(raw: i32) -> (error: Error)
        ensures
            error.raw == raw,
    {
        Error { raw }
    }

    /// The error that stands for a POSIX error number: its negation.
    pub fn posix(errno: i32) -> (error: Error)
        requires
            errno != i32::MIN,
        ensures
            error.raw == -errno,
    {
        Error { raw: -errno }
    }
}

/// Each tagged code is the negated tag of its four bytes.
pub proof fn lemma_tagged_codes()
    ensures
        AVERROR_BSF_NOT_FOUND == spec_fferrtag(0xF8, 'B' as u8, 'S' as u8, 'F' as u8),
        AVERROR_BUG == spec_fferrtag('B' as u8, 'U' as u8, 'G' as u8, '!' as u8),
        AVERROR_BUFFER_TOO_SMALL == spec_fferrtag('B' as u8, 'U' as u8, 'F' as u8, 'S' as u8),
        AVERROR_DECODER_NOT_FOUND == spec_fferrtag(0xF8, 'D' as u8, 'E' as u8, 'C' as u8),
        AVERROR_DEMUXER_NOT_FOUND == spec_fferrtag(0xF8, 'D' as u8, 'E' as u8, 'M' as u8),
        AVERROR_ENCODER_NOT_FOUND == spec_fferrtag(0xF8, 'E' as u8, 'N' as u8, 'C' as u8),
        AVERROR_EOF == spec_fferrtag('E' as u8, 'O' as u8, 'F' as u8, ' ' as u8),
        AVERROR_EXIT == spec_fferrtag('E' as u8, 'X' as u8, 'I' as u8, 'T' as u8),
        AVERROR_EXTERNAL == spec_fferrtag('E' as u8, 'X' as u8, 'T' as u8, ' ' as u8),
        AVERROR_FILTER_NOT_FOUND == spec_fferrtag(0xF8, 'F' as u8, 'I' as u8, 'L' as u8),
        AVERROR_INVALIDDATA == spec_fferrtag('I' as u8, 'N' as u8, 'D' as u8, 'A' as u8),
        AVERROR_MUXER_NOT_FOUND == spec_fferrtag(0xF8, 'M' as u8, 'U' as u8, 'X' as u8),
        AVERROR_OPTION_NOT_FOUND == spec_fferrtag(0xF8, 'O' as u8, 'P' as u8, 'T' as u8),
        AVERROR_PATCHWELCOME == spec_fferrtag('P' as u8, 'A' as u8, 'W' as u8, 'E' as u8),
        AVERROR_PROTOCOL_NOT_FOUND == spec_fferrtag(0xF8, 'P' as u8, 'R' as u8, 'O' as u8),
        AVERROR_STREAM_NOT_FOUND == spec_fferrtag(0xF8, 'S' as u8, 'T' as u8, 'R' as u8),
        AVERROR_BUG2 == spec_fferrtag('B' as u8, 'U' as u8, 'G' as u8, ' ' as u8),
        AVERROR_UNKNOWN == spec_fferrtag('U' as u8, 'N' as u8, 'K' as u8, 'N' as u8),
        AVERROR_HTTP_BAD_REQUEST == spec_fferrtag(0xF8, '4' as u8, '0' as u8, '0' as u8),
        AVERROR_HTTP_UNAUTHORIZED == spec_fferrtag(0xF8, '4' as u8, '0' as u8, '1' as u8),
        AVERROR_HTTP_FORBIDDEN == spec_fferrtag(0xF8, '4' as u8, '0' as u8, '3' as u8),
        AVERROR_HTTP_NOT_FOUND == spec_fferrtag(0xF8, '4' as u8, '0' as u8, '4' as u8),
        AVERROR_HTTP_OTHER_4XX == spec_fferrtag(0xF8, '4' as u8, 'X' as u8, 'X' as u8),
        AVERROR_HTTP_SERVER_ERROR == spec_fferrtag(0xF8, '5' as u8, 'X' as u8, 'X' as u8),
{
}

} // verus!
