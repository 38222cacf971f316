//! The fixed frame format of a slot and the byte layout of a shared region.

use vstd::prelude::*;

verus! {

/// Canvas width in pixels.
pub const WIDTH: usize = 1920;

/// Bytes in one row of the canvas (four bytes per pixel, BGRA order).
pub const PITCH: usize = WIDTH * 4;

/// Canvas height in pixels.
pub const HEIGHT: usize = 1080;

/// Bytes in the video plane of a slot.
pub const SIZE: usize = PITCH * HEIGHT;

/// Audio samples per second and channel.
pub const SAMPLE_RATE: usize = 48_000;

/// Frames per second.
pub const FRAME_RATE: usize = 25;

/// Interleaved audio channels.
pub const NUM_CHANNELS: usize = 2;

/// Interleaved 32-bit samples in the audio plane of a slot.
pub const AUDIO_SAMPLES_PER_FRAME: usize = SAMPLE_RATE * NUM_CHANNELS / FRAME_RATE;

/// Bytes in one pixel.
pub const BYTES_PER_PIXEL: usize = 4;

/// Bytes in one audio sample.
pub const BYTES_PER_SAMPLE: usize = 4;

/// Slots in a shared region.
pub const SLOT_COUNT: usize = 3;

/// Bytes of the control word that follows the slots in a shared region.
pub const CONTROL_WORD_SIZE: usize = 4;

/// Bytes in one slot of the fixed format.
pub const SLOT_SIZE: usize = SIZE + AUDIO_SAMPLES_PER_FRAME * BYTES_PER_SAMPLE;

/// Bytes in a shared region of the fixed format.
pub const REGION_SIZE: usize = SLOT_COUNT * SLOT_SIZE + CONTROL_WORD_SIZE;

/// Samples in the audio plane of one frame: `sample_rate * channels / frame_rate`.
pub open spec fn spec_audio_samples(sample_rate: nat, channels: nat, frame_rate: nat) -> nat {
    (sample_rate * channels) / frame_rate
}

/// Bytes in one slot: the video plane followed by the audio plane.
pub open spec fn spec_slot_size(
    width: nat,
    height: nat,
    sample_rate: nat,
    channels: nat,
    frame_rate: nat,
) -> nat {
    width * height * 4 + spec_audio_samples(sample_rate, channels, frame_rate) * 4
}

/// Bytes in a shared region: three slots and the control word.
pub open spec fn spec_region_size(slot_size: nat) -> nat {
    3 * slot_size + CONTROL_WORD_SIZE as nat
}

/// Whether the size of a slot can be computed: the frame rate is not zero,
/// and neither the size nor the number of samples in one second exceeds
/// `usize`.
pub open spec fn spec_slot_fits(
    width: nat,
    height: nat,
    sample_rate: nat,
    channels: nat,
    frame_rate: nat,
) -> bool {
    &&& frame_rate != 0
    &&& sample_rate * channels <= usize::MAX
    &&& spec_slot_size(width, height, sample_rate, channels, frame_rate) <= usize::MAX
}

/// The number of bytes in one slot of the given format, or `None` when the
/// frame rate is zero or a size does not fit in `usize`.
pub fn slot_size(
    width: usize,
    height: usize,
    sample_rate: usize,
    channels: usize,
    frame_rate: usize,
) -> (size: Option<usize>)
    ensures
        size.is_some() <==> spec_slot_fits(
            width as nat,
            height as nat,
            sample_rate as nat,
            channels as nat,
            frame_rate as nat,
        ),
        size.is_some() ==> size.unwrap() == spec_slot_size(
            width as nat,
            height as nat,
            sample_rate as nat,
            channels as nat,
            frame_rate as nat,
        ),
{
    if frame_rate == 0 {
        return None;
    }
    let pixels: usize = match width.checked_mul(height) {
        Some(p) => p,
        None => {
            proof {
                lemma_product_grows(width as int * height as int, 4);
            }
            return None;
        },
    };
    let video: usize = match pixels.checked_mul(BYTES_PER_PIXEL) {
        Some(v) => v,
        None => {
            return None;
        },
    };
    let rate: usize = match sample_rate.checked_mul(channels) {
        Some(r) => r,
        None => {
            return None;
        },
    };
    let samples: usize = rate / frame_rate;
    let audio: usize = match samples.checked_mul(BYTES_PER_SAMPLE) {
        Some(a) => a,
        None => {
            return None;
        },
    };
    video.checked_add(audio)
}

/// The number of bytes in a shared region whose slots have `slot_size`
/// bytes, or `None` when it does not fit in `usize`.
pub fn region_size(slot_size: usize) -> (size: Option<usize>)
    ensures
        size.is_some() <==> spec_region_size(slot_size as nat) <= usize::MAX,
        size.is_some() ==> size.unwrap() == spec_region_size(slot_size as nat),
{
    match slot_size.checked_mul(SLOT_COUNT) {
        Some(slots) => slots.checked_add(CONTROL_WORD_SIZE),
        None => None,
    }
}

/// A product with a factor of at least one is no smaller than the other factor.
proof fn lemma_product_grows(x: int, k: int)
    requires
        0 <= x,
        1 <= k,
    ensures
        x <= x * k,
{
    assert(x <= x * k) by (nonlinear_arith)
        requires
            0 <= x,
            1 <= k,
    ;
}

/// The fixed constants agree with the general formulas.
pub proof fn lemma_fixed_format()
    ensures
        SIZE == 8_294_400,
        AUDIO_SAMPLES_PER_FRAME == 3840,
        SLOT_SIZE == 8_309_760,
        SLOT_SIZE == spec_slot_size(
            WIDTH as nat,
            HEIGHT as nat,
            SAMPLE_RATE as nat,
            NUM_CHANNELS as nat,
            FRAME_RATE as nat,
        ),
        REGION_SIZE == spec_region_size(SLOT_SIZE as nat),
        REGION_SIZE == 24_929_284,
{
}

/// What a slot holds: the bytes of its video plane and the samples of its
/// audio plane.
pub struct BufferView {
    pub video: Seq<u8>,
    pub audio: Seq<i32>,
}

impl BufferView {
    /// Both planes have the size of the fixed format.
    pub open spec fn wf(self) -> bool {
        &&& self.video.len() == SIZE
        &&& self.audio.len() == AUDIO_SAMPLES_PER_FRAME
    }

    /// The frame whose planes are all zero.
    pub open spec fn zero() -> BufferView {
        BufferView {
            video: Seq::new(SIZE as nat, |i: int| 0u8),
            audio: Seq::new(AUDIO_SAMPLES_PER_FRAME as nat, |i: int| 0i32),
        }
    }
}

/// One slot: a video plane of `SIZE` bytes in BGRA order and an audio plane
/// of `AUDIO_SAMPLES_PER_FRAME` interleaved samples.
pub struct Buffer {
    video_frame: Vec<u8>,
    audio_frame: Vec<i32>,
}

impl View for Buffer {
    type V = BufferView;

    closed spec fn view(&self) -> BufferView {
        BufferView { video: self.video_frame@, audio: self.audio_frame@ }
    }
}

impl Buffer {
    /// Both planes have the size of the fixed format.
    pub open spec fn wf(&self) -> bool {
        self@.wf()
    }

    /// A slot whose planes are all zero.
    pub fn new() -> (buffer: Buffer)
        ensures
            buffer.wf(),
            buffer@ == BufferView::zero(),
    {
        let buffer = Buffer {
            video_frame: vec![0u8; SIZE],
            audio_frame: vec![0i32; AUDIO_SAMPLES_PER_FRAME],
        };
        assert(buffer@.video =~= BufferView::zero().video);
        assert(buffer@.audio =~= BufferView::zero().audio);
        buffer
    }

    /// The video plane.
    pub fn video_frame(&self) -> (plane: &[u8])
        ensures
            plane@ == self@.video,
    {
        self.video_frame.as_slice()
    }

    /// The audio plane.
    pub fn audio_frame(&self) -> (plane: &[i32])
        ensures
            plane@ == self@.audio,
    {
        self.audio_frame.as_slice()
    }

    /// The video plane, for writing. Its length cannot change.
    pub fn video_frame_mut(&mut self) -> (plane: &mut [u8])
        ensures
            plane@ == old(self)@.video,
            final(self)@ == (BufferView { video: final(plane)@, audio: old(self)@.audio }),
    {
        self.video_frame.as_mut_slice()
    }

    /// The audio plane, for writing. Its length cannot change.
    pub fn audio_frame_mut(&mut self) -> (plane: &mut [i32])
        ensures
            plane@ == old(self)@.audio,
            final(self)@ == (BufferView { video: old(self)@.video, audio: final(plane)@ }),
    {
        self.audio_frame.as_mut_slice()
    }

    /// Both planes at once, for writing.
    pub fn planes_mut(&mut self) -> (planes: (&mut [u8], &mut [i32]))
        ensures
            planes.0@ == old(self)@.video,
            planes.1@ == old(self)@.audio,
            final(self)@ == (BufferView { video: final(planes.0)@, audio: final(planes.1)@ }),
    {
        (self.video_frame.as_mut_slice(), self.audio_frame.as_mut_slice())
    }
}

} // verus!
