//! Elementary streams of a container: what the pipeline reads of them, how
//! the best stream of a kind is chosen, and how the statuses of the demuxer
//! and of a decoder are read.

use crate::error::{Error, AVERROR_EOF, AVERROR_STREAM_NOT_FOUND};
use vstd::prelude::*;

verus! {

/// The kind of an elementary stream that the pipeline decodes.
#[derive(Clone, Copy, Debug, PartialEq, Eq, Structural)]
pub enum MediaType {
    Video,
    Audio,
}

/// The order of the channels in a layout: unspecified.
pub const AV_CHANNEL_ORDER_UNSPEC: i32 = 0;

/// The order of the channels in a layout: that of the bits of its mask.
pub const AV_CHANNEL_ORDER_NATIVE: i32 = 1;

/// The mask bit of the front left channel.
pub const AV_CH_FRONT_LEFT: u64 = 1;

/// The mask bit of the front right channel.
pub const AV_CH_FRONT_RIGHT: u64 = 2;

/// The mask of a stereo layout.
pub const AV_CH_LAYOUT_STEREO: u64 = 3;

/// The pixel format of the canvas: four bytes per pixel, blue first.
pub const AV_PIX_FMT_BGRA: i32 = 28;

/// Planar YUV with the chroma planes halved in both directions.
pub const AV_PIX_FMT_YUV420P: i32 = 0;

/// The sample format of the audio plane: signed 32-bit, interleaved.
pub const AV_SAMPLE_FMT_S32: i32 = 2;

/// Which channels an audio stream carries.
#[derive(Clone, Copy, Debug, PartialEq, Eq, Structural)]
pub struct ChannelLayout {
    pub order: i32,
    pub nb_channels: i32,
    pub mask: u64,
}

/// The layout with `num_channels` channels in native order, named by `mask`.
#[allow(non_snake_case)]
pub fn AV_CHANNEL_LAYOUT_MASK(num_channels: i32, mask: u64) -> (layout: ChannelLayout)
    ensures
        layout == (ChannelLayout {
            order: AV_CHANNEL_ORDER_NATIVE,
            nb_channels: num_channels,
            mask: mask,
        }),
{
    ChannelLayout { order: AV_CHANNEL_ORDER_NATIVE, nb_channels: num_channels, mask }
}

/// The stereo layout: front left and front right.
pub open spec fn spec_stereo() -> ChannelLayout {
    ChannelLayout { order: AV_CHANNEL_ORDER_NATIVE, nb_channels: 2, mask: AV_CH_LAYOUT_STEREO }
}

/// The stereo layout: front left and front right.
#[allow(non_snake_case)]
pub fn AV_CHANNEL_LAYOUT_STEREO() -> (layout: ChannelLayout)
    ensures
        layout == spec_stereo(),
{
    AV_CHANNEL_LAYOUT_MASK(2, AV_CH_LAYOUT_STEREO)
}

/// What a container declares of the coding of one stream.
#[derive(Clone, Copy, Debug, PartialEq, Eq, Structural)]
pub struct CodecParameters {
    /// The kind of the stream, if it is one that the pipeline decodes.
    pub media_type: Option<MediaType>,
    /// Picture width in pixels (video).
    pub width: i32,
    /// Picture height in pixels (video).
    pub height: i32,
    /// The pixel format (video) or the sample format (audio).
    pub format: i32,
    /// The channels (audio).
    pub ch_layout: ChannelLayout,
    /// Samples per second (audio).
    pub sample_rate: i32,
    /// Average bits per second.
    pub bit_rate: i64,
}

/// One elementary stream of a container.
#[derive(Clone, Copy, Debug, PartialEq, Eq, Structural)]
pub struct Stream {
    pub index: i32,
    pub params: CodecParameters,
}

impl Stream {
    /// The position of the stream in its container.
    pub fn stream_index(&self) -> (index: i32)
        ensures
            index == self.index,
    {
        self.index
    }

    /// What the container declares of the coding of the stream.
    pub fn codec_params(&self) -> (params: &CodecParameters)
        ensures
            *params == self.params,
    {
        &self.params
    }

    /// Picture width in pixels.
    pub fn width(&self) -> (width: i32)
        ensures
            width == self.params.width,
    {
        self.codec_params().width
    }

    /// Picture height in pixels.
    pub fn height(&self) -> (height: i32)
        ensures
            height == self.params.height,
    {
        self.codec_params().height
    }

    /// The pixel format of a video stream.
    pub fn pixel_format(&self) -> (format: i32)
        ensures
            format == self.params.format,
    {
        self.codec_params().format
    }

    /// The channels of an audio stream.
    pub fn channel_layout(&self) -> (layout: ChannelLayout)
        ensures
            layout == self.params.ch_layout,
    {
        self.codec_params().ch_layout
    }

    /// The sample format of an audio stream.
    pub fn sample_format(&self) -> (format: i32)
        ensures
            format == self.params.format,
    {
        self.codec_params().format
    }

    /// Samples per second of an audio stream.
    pub fn sample_rate(&self) -> (rate: i32)
        ensures
            rate == self.params.sample_rate,
    {
        self.codec_params().sample_rate
    }

    /// Whether the stream is of the given kind.
    pub open spec fn is_of(self, kind: MediaType) -> bool {
        self.params.media_type == Some(kind)
    }

    /// The number of pixels of a picture; zero unless both sides are positive.
    pub open spec fn pixels(self) -> int {
        if self.params.width > 0 && self.params.height > 0 {
            self.params.width * self.params.height
        } else {
            0
        }
    }

    /// Whether this stream is preferred to `other`: more pixels, or as many
    /// pixels and more bits per second.
    pub open spec fn better_than(self, other: Stream) -> bool {
        ||| self.pixels() > other.pixels()
        ||| (self.pixels() == other.pixels() && self.params.bit_rate > other.params.bit_rate)
    }

    fn pixel_count(&self) -> (pixels: i64)
        ensures
            pixels == self.pixels(),
    {
        if self.params.width > 0 && self.params.height > 0 {
            assert(0 < self.params.width * self.params.height <= 0x7fff_ffff * 0x7fff_ffff)
                by (nonlinear_arith)
                requires
                    0 < self.params.width <= 0x7fff_ffff,
                    0 < self.params.height <= 0x7fff_ffff,
            ;
            self.params.width as i64 * self.params.height as i64
        } else {
            0
        }
    }

    fn beats(&self, other: &Stream) -> (better: bool)
        ensures
            better == self.better_than(*other),
    {
        let mine: i64 = self.pixel_count();
        let theirs: i64 = other.pixel_count();
        mine > theirs || (mine == theirs && self.params.bit_rate > other.params.bit_rate)
    }
}

/// What the pipeline reads of one compressed unit.
#[derive(Clone, Copy, Debug, PartialEq, Eq, Structural)]
pub struct Packet {
    /// The stream that the unit belongs to.
    pub stream_index: i32,
    /// Whether decoding can start at this unit.
    pub keyframe: bool,
}

impl Packet {
    /// The stream that the unit belongs to.
    pub fn stream_index(&self) -> (index: i32)
        ensures
            index == self.stream_index,
    {
        self.stream_index
    }
}

/// What one pull from the container gave.
#[derive(Clone, Copy, Debug, PartialEq, Eq, Structural)]
pub enum Pull {
    /// A unit.
    Unit(Packet),
    /// Nothing yet; a live source may give more later.
    NoData,
    /// The input has ended.
    End,
}

/// The streams of an opened container, in container order.
pub struct Demuxer {
    streams: Vec<Stream>,
    again: Error,
}

/// The streams of a demuxer, and the status by which its source says
/// "nothing yet".
pub struct DemuxerView {
    pub streams: Seq<Stream>,
    pub again: Error,
}

impl View for Demuxer {
    type V = DemuxerView;

    closed spec fn view(&self) -> DemuxerView {
        DemuxerView { streams: self.streams@, again: self.again }
    }
}

impl DemuxerView {
    /// Every stream knows its position, and "nothing yet" is a failure
    /// status other than the end of input.
    pub open spec fn wf(self) -> bool {
        &&& self.streams.len() <= i32::MAX
        &&& forall|i: int| 0 <= i < self.streams.len() ==> (#[trigger] self.streams[i]).index == i
        &&& self.again.raw < 0
        &&& self.again.raw != AVERROR_EOF
    }

    /// Whether `index` is the first of the most preferred streams of `kind`.
    pub open spec fn is_best(self, kind: MediaType, index: int) -> bool {
        &&& 0 <= index < self.streams.len()
        &&& self.streams[index].is_of(kind)
        &&& forall|j: int|
            0 <= j < self.streams.len() && (#[trigger] self.streams[j]).is_of(kind)
                ==> !self.streams[j].better_than(self.streams[index])
        &&& forall|j: int|
            0 <= j < index && (#[trigger] self.streams[j]).is_of(kind)
                ==> self.streams[index].better_than(self.streams[j])
    }

    /// Whether the container has a stream of `kind`.
    pub open spec fn has(self, kind: MediaType) -> bool {
        exists|j: int| 0 <= j < self.streams.len() && (#[trigger] self.streams[j]).is_of(kind)
    }
}

impl Demuxer {
    /// The invariant of the demuxer.
    pub open spec fn wf(&self) -> bool {
        self@.wf()
    }

    /// The demuxer of a container with these streams, in this order.
    /// `again` is the status by which the source says "nothing yet".
    /// `None` when there are more streams than an index can count, or
    /// `again` is no failure status or is the end of input.
    pub fn new(params: &Vec<CodecParameters>, again: Error) -> (demuxer: Option<Demuxer>)
        ensures
            demuxer.is_some() <==> params@.len() <= i32::MAX && again.raw < 0 && again.raw
                != AVERROR_EOF,
            demuxer.is_some() ==> {
                let d = demuxer.unwrap();
                &&& d.wf()
                &&& d@.again == again
                &&& d@.streams.len() == params@.len()
                &&& forall|i: int|
                    0 <= i < params@.len() ==> (#[trigger] d@.streams[i]).params == params@[i]
            },
    {
        if params.len() > i32::MAX as usize || again.raw >= 0 || again.raw == AVERROR_EOF {
            return None;
        }
        let mut streams: Vec<Stream> = Vec::new();
        let mut i: usize = 0;
        while i < params.len()
            invariant
                i <= params@.len() <= i32::MAX,
                streams@.len() == i,
                forall|k: int| 0 <= k < i ==> (#[trigger] streams@[k]).index == k,
                forall|k: int| 0 <= k < i ==> (#[trigger] streams@[k]).params == params@[k],
            decreases params@.len() - i,
        {
            streams.push(Stream { index: i as i32, params: params[i] });
            i += 1;
        }
        Some(Demuxer { streams, again })
    }

    /// The number of streams.
    pub fn stream_count(&self) -> (count: usize)
        ensures
            count == self@.streams.len(),
    {
        self.streams.len()
    }

    /// The stream at `index`, if there is one.
    pub fn stream(&self, index: i32) -> (stream: Option<Stream>)
        ensures
            stream.is_some() <==> 0 <= index < self@.streams.len(),
            stream.is_some() ==> stream.unwrap() == self@.streams[index as int],
    {
        if index >= 0 && (index as usize) < self.streams.len() {
            Some(self.streams[index as usize])
        } else {
            None
        }
    }

    /// The best stream of `stream_type` with its index: the one with the
    /// most pixels, among those the one with the most bits per second, and
    /// among those the first in container order. Fails with
    /// `AVERROR_STREAM_NOT_FOUND` exactly when the container has no stream
    /// of that kind.
    pub fn find_best_stream(&self, stream_type: MediaType) -> (result: Result<
        (i32, Stream, Decoder),
        Error,
    >)
        requires
            self.wf(),
        ensures
            result.is_ok() <==> self@.has(stream_type),
            result matches Ok((index, stream, decoder)) ==> {
                &&& self@.is_best(stream_type, index as int)
                &&& stream == self@.streams[index as int]
                &&& stream.index == index
                &&& decoder == (Decoder { stream_index: index, again: self@.again })
                &&& decoder.wf()
            },
            result matches Err(e) ==> e.raw == AVERROR_STREAM_NOT_FOUND,
    {
        let mut best: Option<usize> = None;
        let mut i: usize = 0;
        while i < self.streams.len()
            invariant
                i <= self.streams@.len(),
                self.streams@ == self@.streams,
                best.is_none() ==> forall|j: int|
                    0 <= j < i ==> !(#[trigger] self@.streams[j]).is_of(stream_type),
                best matches Some(b) ==> {
                    &&& b < i
                    &&& self@.streams[b as int].is_of(stream_type)
                    &&& forall|j: int|
                        0 <= j < i && (#[trigger] self@.streams[j]).is_of(stream_type)
                            ==> !self@.streams[j].better_than(self@.streams[b as int])
                    &&& forall|j: int|
                        0 <= j < b && (#[trigger] self@.streams[j]).is_of(stream_type)
                            ==> self@.streams[b as int].better_than(self@.streams[j])
                },
            decreases self.streams@.len() - i,
        {
            let candidate = &self.streams[i];
            if candidate.params.media_type == Some(stream_type) {
                match best {
                    None => {
                        best = Some(i);
                    },
                    Some(b) => {
                        if candidate.beats(&self.streams[b]) {
                            best = Some(i);
                        }
                    },
                }
            }
            i += 1;
        }
        match best {
            Some(b) => {
                let stream = self.streams[b];
                Ok((b as i32, stream, Decoder::new(&stream, self.again)))
            },
            None => Err(Error { raw: AVERROR_STREAM_NOT_FOUND }),
        }
    }

    /// Reads the status of one pull from the container: a unit on success,
    /// "nothing yet" or the end of input on their statuses, and the error of
    /// any other failure status.
    pub fn read(&self, status: i32, packet: Packet) -> (result: Result<Pull, Error>)
        requires
            self.wf(),
        ensures
            result == spec_read(self@.again, status, packet),
    {
        if status >= 0 {
            Ok(Pull::Unit(packet))
        } else if status == AVERROR_EOF {
            Ok(Pull::End)
        } else if status == self.again.raw {
            Ok(Pull::NoData)
        } else {
            Err(Error { raw: status })
        }
    }
}

/// What the status of one pull from the container means.
pub open spec fn spec_read(again: Error, status: i32, packet: Packet) -> Result<Pull, Error> {
    if status >= 0 {
        Ok(Pull::Unit(packet))
    } else if status == AVERROR_EOF {
        Ok(Pull::End)
    } else if status == again.raw {
        Ok(Pull::NoData)
    } else {
        Err(Error { raw: status })
    }
}

/// The decoder of one stream, as far as the pipeline reads its statuses.
#[derive(Clone, Copy, Debug, PartialEq, Eq, Structural)]
pub struct Decoder {
    /// The stream whose units the decoder takes.
    pub stream_index: i32,
    /// The status by which the decoder says that it has no frame for now.
    pub again: Error,
}

/// What the status of feeding a unit to a decoder means.
pub open spec fn spec_send(status: i32) -> Result<(), Error> {
    if status < 0 {
        Err(Error { raw: status })
    } else {
        Ok(())
    }
}

/// What the status of asking a decoder for a frame means: the frame on
/// success, no frame when the decoder wants more input or has ended, the
/// error of any other failure status.
pub open spec fn spec_receive<F>(again: Error, status: i32, frame: F) -> Result<Option<F>, Error> {
    if status >= 0 {
        Ok(Some(frame))
    } else if status == again.raw || status == AVERROR_EOF {
        Ok(None)
    } else {
        Err(Error { raw: status })
    }
}

impl Decoder {
    /// "No frame for now" is a failure status.
    pub open spec fn wf(&self) -> bool {
        self.again.raw < 0
    }

    fn new(stream: &Stream, again: Error) -> (decoder: Decoder)
        ensures
            decoder == (Decoder { stream_index: stream.index, again }),
    {
        Decoder { stream_index: stream.index, again }
    }

    /// Reads the status of feeding a unit to the decoder.
    pub fn send(&self, status: i32) -> (result: Result<(), Error>)
        ensures
            result == spec_send(status),
    {
        if status < 0 {
            Err(Error { raw: status })
        } else {
            Ok(())
        }
    }

    /// Reads the status of asking the decoder for a frame, and hands the
    /// frame on if the decoder gave one.
    pub fn receive<F>(&self, status: i32, frame: F) -> (result: Result<Option<F>, Error>)
        ensures
            result == spec_receive(self.again, status, frame),
    {
        if status >= 0 {
            Ok(Some(frame))
        } else if status == self.again.raw || status == AVERROR_EOF {
            Ok(None)
        } else {
            Err(Error { raw: status })
        }
    }
}

/// The best stream of a kind is unique.
pub proof fn lemma_best_is_unique(demuxer: DemuxerView, kind: MediaType, a: int, b: int)
    requires
        demuxer.is_best(kind, a),
        demuxer.is_best(kind, b),
    ensures
        a == b,
{
    if a < b {
        assert(demuxer.streams[a].is_of(kind));
        assert(demuxer.streams[b].better_than(demuxer.streams[a]));
    } else if b < a {
        assert(demuxer.streams[b].is_of(kind));
        assert(demuxer.streams[a].better_than(demuxer.streams[b]));
    }
}

} // verus!
