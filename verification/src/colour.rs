//! A producer of frames of one colour.

use crate::format::BufferView;
use crate::triple_buffer::TripleBuffer;
use vstd::prelude::*;
use vstd::string::StringSliceAdditionalSpecFns;

verus! {

/// A colour by its red, green and blue channels.
#[derive(Clone, Copy, Debug, PartialEq, Eq, Structural)]
pub struct Rgb {
    pub r: u8,
    pub g: u8,
    pub b: u8,
}

/// The value of a hexadecimal digit, in either case.
pub open spec fn spec_hex_digit(byte: u8) -> Option<u8> {
    if 0x30 <= byte <= 0x39 {
        Some((byte - 0x30) as u8)
    } else if 0x61 <= byte <= 0x66 {
        Some((byte - 0x61 + 10) as u8)
    } else if 0x41 <= byte <= 0x46 {
        Some((byte - 0x41 + 10) as u8)
    } else {
        None
    }
}

/// The value of a channel written with two characters: two hexadecimal
/// digits, or a plus sign and one digit.
pub open spec fn spec_channel(high: u8, low: u8) -> Option<u8> {
    match spec_hex_digit(low) {
        None => None,
        Some(l) => if high == 0x2b {
            Some(l)
        } else {
            match spec_hex_digit(high) {
                None => None,
                Some(h) => Some((16 * h + l) as u8),
            }
        },
    }
}

/// The colour that a text of the form `#rrggbb` names: its first byte is
/// passed over, the next six spell the three channels, and what follows is
/// ignored.
pub open spec fn spec_parse_colour(text: Seq<u8>) -> Option<Rgb> {
    if text.len() < 7 {
        None
    } else {
        match (
            spec_channel(text[1], text[2]),
            spec_channel(text[3], text[4]),
            spec_channel(text[5], text[6]),
        ) {
            (Some(r), Some(g), Some(b)) => Some(Rgb { r, g, b }),
            _ => None,
        }
    }
}

/// Whether the pixel at `position` of a video plane has this colour and is
/// opaque: its four bytes are blue, green, red and 255.
pub open spec fn pixel_is(video: Seq<u8>, position: int, colour: Rgb) -> bool {
    &&& video[4 * position] == colour.b
    &&& video[4 * position + 1] == colour.g
    &&& video[4 * position + 2] == colour.r
    &&& video[4 * position + 3] == 255
}

/// Whether every pixel of a video plane has this colour and is opaque.
pub open spec fn is_solid(video: Seq<u8>, colour: Rgb) -> bool {
    &&& video.len() % 4 == 0
    &&& forall|p: int| 0 <= p < video.len() / 4 ==> pixel_is(video, p, colour)
}

fn hex_digit(byte: u8) -> (value: Option<u8>)
    ensures
        value == spec_hex_digit(byte),
        value matches Some(v) ==> v < 16,
{
    if 0x30 <= byte && byte <= 0x39 {
        Some(byte - 0x30)
    } else if 0x61 <= byte && byte <= 0x66 {
        Some(byte - 0x61 + 10)
    } else if 0x41 <= byte && byte <= 0x46 {
        Some(byte - 0x41 + 10)
    } else {
        None
    }
}

fn channel(high: u8, low: u8) -> (value: Option<u8>)
    ensures
        value == spec_channel(high, low),
{
    match hex_digit(low) {
        None => None,
        Some(l) => {
            if high == 0x2b {
                Some(l)
            } else {
                match hex_digit(high) {
                    None => None,
                    Some(h) => Some(16 * h + l),
                }
            }
        },
    }
}

/// The colour that `colour` names, if it names one.
pub fn parse_colour(colour: &str) -> (parsed: Option<Rgb>)
    ensures
        parsed == spec_parse_colour(colour.spec_bytes()),
{
    let text: &[u8] = colour.as_bytes();
    if text.len() < 7 {
        return None;
    }
    let r: u8 = match channel(text[1], text[2]) {
        Some(r) => r,
        None => {
            return None;
        },
    };
    let g: u8 = match channel(text[3], text[4]) {
        Some(g) => g,
        None => {
            return None;
        },
    };
    let b: u8 = match channel(text[5], text[6]) {
        Some(b) => b,
        None => {
            return None;
        },
    };
    Some(Rgb { r, g, b })
}

/// Paints every pixel of a video plane with `colour`, opaque. A plane whose
/// length is no multiple of four keeps its last bytes.
pub fn fill_colour(video: &mut [u8], colour: Rgb)
    ensures
        final(video)@.len() == old(video)@.len(),
        forall|p: int| 0 <= p < old(video)@.len() / 4 ==> pixel_is(final(video)@, p, colour),
        forall|i: int|
            (old(video)@.len() / 4) * 4 <= i < old(video)@.len() ==> final(video)@[i] == old(
                video,
            )@[i],
{
    let pixels: usize = video.len() / 4;
    let mut p: usize = 0;
    while p < pixels
        invariant
            p <= pixels,
            pixels == old(video)@.len() / 4,
            4 * pixels <= video@.len() <= usize::MAX,
            video@.len() == old(video)@.len(),
            forall|q: int| 0 <= q < p ==> pixel_is(video@, q, colour),
            forall|i: int| 4 * p <= i < video@.len() ==> video@[i] == old(video)@[i],
        decreases pixels - p,
    {
        let ghost before = video@;
        let i: usize = p * 4;
        video[i] = colour.b;
        video[i + 1] = colour.g;
        video[i + 2] = colour.r;
        video[i + 3] = 255;
        assert forall|q: int| 0 <= q < p + 1 implies pixel_is(video@, q, colour) by {
            if q < p {
                assert(pixel_is(before, q, colour));
            }
        }
        p += 1;
    }
}

/// Publishes a frame of the colour that `colour` names: its video plane is
/// painted, its audio plane is what the writer's slot held. Does nothing,
/// and says so, when `colour` names no colour.
pub fn write_frame(buffer: &mut TripleBuffer, colour: &str) -> (written: bool)
    requires
        old(buffer).wf(),
    ensures
        final(buffer).wf(),
        written == spec_parse_colour(colour.spec_bytes()).is_some(),
        !written ==> final(buffer)@ == old(buffer)@,
        written ==> ({
            let frame = final(buffer)@.newest();
            &&& is_solid(frame.video, spec_parse_colour(colour.spec_bytes()).unwrap())
            &&& frame.audio == old(buffer)@.back().audio
            &&& final(buffer)@ == old(buffer)@.store(frame).publish()
        }),
{
    match parse_colour(colour) {
        None => false,
        Some(rgb) => {
            let slot = buffer.write();
            let video = slot.video_frame_mut();
            fill_colour(video, rgb);
            proof {
                crate::format::lemma_fixed_format();
            }
            buffer.done_writing();
            true
        },
    }
}

} // verus!
