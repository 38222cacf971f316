//! The source pipeline: from the units of a container to one video plane
//! and one audio plane per frame.
//!
//! Reading, decoding, scaling and resampling are done by whoever drives
//! the pipeline. The pipeline says what to do next (an [`Action`]) and is
//! told what came of it (an [`Event`]); it keeps the two queues of decoded
//! frames, the carry of converted samples, and the record of failure and
//! exhaustion.

use crate::error::{Error, AVERROR_BUG, AVERROR_STREAM_NOT_FOUND};
use crate::format::{BufferView, HEIGHT, SAMPLE_RATE, WIDTH};
use crate::triple_buffer::TripleBuffer;
use crate::resample::{spec_convertible, spec_converted, Resampler, ResamplerView, AVERROR_EINVAL};
use crate::scale::{spec_scale, Scaler};
use crate::stream::{
    lemma_best_is_unique, spec_read, spec_receive, spec_send, spec_stereo, Decoder, Demuxer,
    DemuxerView, MediaType, Packet, Pull, AV_CHANNEL_LAYOUT_STEREO, AV_PIX_FMT_BGRA,
    AV_SAMPLE_FMT_S32,
};
use std::collections::VecDeque;
use vstd::prelude::*;

verus! {

/// How a request for the next frame ended.
#[derive(Clone, Copy, Debug, PartialEq, Eq, Structural)]
pub enum Fill {
    /// Both planes of the slot are filled.
    Filled,
    /// A live source has nothing yet; ask again at the next tick.
    Pending,
    /// The input has ended and what is left does not fill a frame.
    Exhausted,
}

/// What the pipeline waits for.
#[derive(Clone, Copy, Debug, PartialEq, Eq, Structural)]
pub enum Phase {
    /// A request for the next frame.
    Idle,
    /// The outcome of reading one unit.
    Unit,
    /// The status of feeding the unit to a decoder.
    Sent(MediaType),
    /// The answer of a decoder that was asked for a frame.
    Received(MediaType),
    /// A scaled picture.
    Scaled,
    /// Converted samples.
    Resampled,
}

/// What the driver does next.
pub enum Action<F> {
    /// Read one unit from the container and report `Event::Unit`.
    ReadUnit,
    /// Feed the unit just read to the decoder of this kind and report
    /// `Event::Sent`.
    Send(MediaType),
    /// Ask the decoder of this kind for a frame and report `Event::Received`.
    Receive(MediaType),
    /// Scale this frame to the canvas and report `Event::Scaled`.
    Scale(F),
    /// Convert this frame to the audio format of a slot and report
    /// `Event::Resampled`.
    Resample(F),
    /// The request has ended.
    Done(Result<Fill, Error>),
}

/// What the driver reports.
pub enum Event<'a, F> {
    /// A frame is wanted: begin, or after `Fill::Pending` go on.
    Start,
    /// The status of reading one unit, and the unit.
    Unit { status: i32, packet: Packet },
    /// The status of feeding the unit to the decoder.
    Sent { status: i32 },
    /// The status of asking the decoder for a frame, and the frame that was
    /// offered to it.
    Received { status: i32, frame: F },
    /// The status of scaling, and the scaled picture.
    Scaled { status: i32, data: &'a [u8] },
    /// The status of converting (the samples written for every channel, if
    /// it is no failure), and the buffer that was written to.
    Resampled { status: i32, output: &'a [i32] },
}

/// An event with its buffers as sequences.
pub enum EventView<F> {
    Start,
    Unit { status: i32, packet: Packet },
    Sent { status: i32 },
    Received { status: i32, frame: F },
    Scaled { status: i32, data: Seq<u8> },
    Resampled { status: i32, output: Seq<i32> },
}

impl<'a, F> View for Event<'a, F> {
    type V = EventView<F>;

    open spec fn view(&self) -> EventView<F> {
        match *self {
            Event::Start => EventView::Start,
            Event::Unit { status, packet } => EventView::Unit { status, packet },
            Event::Sent { status } => EventView::Sent { status },
            Event::Received { status, frame } => EventView::Received { status, frame },
            Event::Scaled { status, data } => EventView::Scaled { status, data: data@ },
            Event::Resampled { status, output } => EventView::Resampled { status, output: output@ },
        }
    }
}

/// The abstract state of the source pipeline.
pub struct MediaStreamView<F> {
    pub demuxer: DemuxerView,
    pub video_stream_index: i32,
    pub video_decoder: Decoder,
    pub video_scaler: Scaler,
    /// Decoded pictures that were not scaled yet, oldest first.
    pub video_queue: Seq<F>,
    pub audio_stream_index: i32,
    pub audio_decoder: Decoder,
    pub audio_resampler: ResamplerView,
    /// Decoded audio frames that were not converted yet, oldest first.
    pub audio_queue: Seq<F>,
    pub phase: Phase,
    /// Whether the video plane of the frame in progress is filled.
    pub video_done: bool,
    /// Whether the container has ended.
    pub exhausted: bool,
    /// The error that halted the pipeline, if one did.
    pub failed: Option<Error>,
}

/// The state, the action and the planes after a step.
pub struct Outcome<F> {
    pub next: MediaStreamView<F>,
    pub action: Action<F>,
    pub video: Seq<u8>,
    pub audio: Seq<i32>,
}

impl<F> MediaStreamView<F> {
    /// The two streams differ, each decoder belongs to its stream and reads
    /// "nothing for now" as the demuxer does, the conversion of the audio
    /// can be set up, and a halted pipeline waits for nothing.
    pub open spec fn wf(self) -> bool {
        &&& self.demuxer.wf()
        &&& self.video_stream_index != self.audio_stream_index
        &&& self.video_decoder == (Decoder {
            stream_index: self.video_stream_index,
            again: self.demuxer.again,
        })
        &&& self.audio_decoder == (Decoder {
            stream_index: self.audio_stream_index,
            again: self.demuxer.again,
        })
        &&& self.audio_resampler.wf()
        &&& self.failed is Some ==> self.phase is Idle
    }

    /// The pipeline over the best video and the best audio stream of a
    /// container, before anything was read.
    pub open spec fn initial(
        demuxer: DemuxerView,
        video_stream_index: int,
        audio_stream_index: int,
    ) -> MediaStreamView<F> {
        let video = demuxer.streams[video_stream_index];
        let audio = demuxer.streams[audio_stream_index];
        MediaStreamView {
            demuxer,
            video_stream_index: video_stream_index as i32,
            video_decoder: Decoder {
                stream_index: video_stream_index as i32,
                again: demuxer.again,
            },
            video_scaler: Scaler {
                src_width: video.params.width,
                src_height: video.params.height,
                src_pixel_format: video.params.format,
                dst_width: WIDTH as i32,
                dst_height: HEIGHT as i32,
                dst_pixel_format: AV_PIX_FMT_BGRA,
            },
            video_queue: Seq::empty(),
            audio_stream_index: audio_stream_index as i32,
            audio_decoder: Decoder {
                stream_index: audio_stream_index as i32,
                again: demuxer.again,
            },
            audio_resampler: ResamplerView {
                src_channel_layout: audio.params.ch_layout,
                src_sample_format: audio.params.format,
                src_sample_rate: audio.params.sample_rate,
                dst_channel_layout: spec_stereo(),
                dst_sample_format: AV_SAMPLE_FMT_S32,
                dst_sample_rate: SAMPLE_RATE as i32,
                carry: Seq::empty(),
            },
            audio_queue: Seq::empty(),
            phase: Phase::Idle,
            video_done: false,
            exhausted: false,
            failed: None,
        }
    }

    /// The decoder of a kind.
    pub open spec fn decoder(self, kind: MediaType) -> Decoder {
        match kind {
            MediaType::Video => self.video_decoder,
            MediaType::Audio => self.audio_decoder,
        }
    }

    /// The state with `frame` at the back of the queue of a kind.
    pub open spec fn enqueue(self, kind: MediaType, frame: F) -> MediaStreamView<F> {
        match kind {
            MediaType::Video => MediaStreamView {
                video_queue: self.video_queue.push(frame),
                ..self
            },
            MediaType::Audio => MediaStreamView {
                audio_queue: self.audio_queue.push(frame),
                ..self
            },
        }
    }

    /// The pipeline halts on `error`: this and every later request end with it.
    pub open spec fn fail(self, error: Error, video: Seq<u8>, audio: Seq<i32>) -> Outcome<F> {
        Outcome {
            next: MediaStreamView { failed: Some(error), phase: Phase::Idle, ..self },
            action: Action::Done(Err(error)),
            video,
            audio,
        }
    }

    /// The request ends with `fill`.
    pub open spec fn done(self, fill: Fill, video: Seq<u8>, audio: Seq<i32>) -> Outcome<F> {
        Outcome {
            next: MediaStreamView { phase: Phase::Idle, ..self },
            action: Action::Done(Ok(fill)),
            video,
            audio,
        }
    }

    /// What to do when nothing is awaited. A halted pipeline ends the
    /// request with its error. Otherwise the video plane comes first, then
    /// the audio plane: a queued frame is handed out for conversion; with
    /// an empty queue the request ends if the container has ended, and one
    /// more unit is read if it has not. The audio plane is filled from the
    /// carry as soon as the carry holds a whole plane.
    pub open spec fn decide(self, video: Seq<u8>, audio: Seq<i32>) -> Outcome<F> {
        if self.failed is Some {
            self.fail(self.failed->0, video, audio)
        } else if !self.video_done {
            if self.video_queue.len() > 0 {
                Outcome {
                    next: MediaStreamView {
                        video_queue: self.video_queue.skip(1),
                        phase: Phase::Scaled,
                        ..self
                    },
                    action: Action::Scale(self.video_queue[0]),
                    video,
                    audio,
                }
            } else if self.exhausted {
                self.done(Fill::Exhausted, video, audio)
            } else {
                Outcome {
                    next: MediaStreamView { phase: Phase::Unit, ..self },
                    action: Action::ReadUnit,
                    video,
                    audio,
                }
            }
        } else {
            if self.audio_resampler.carry.len() >= audio.len() {
                Outcome {
                    next: MediaStreamView {
                        audio_resampler: self.audio_resampler.pop(audio.len() as int),
                        video_done: false,
                        phase: Phase::Idle,
                        ..self
                    },
                    action: Action::Done(Ok(Fill::Filled)),
                    video,
                    audio: self.audio_resampler.carry.take(audio.len() as int),
                }
            } else if self.audio_queue.len() > 0 {
                Outcome {
                    next: MediaStreamView {
                        audio_queue: self.audio_queue.skip(1),
                        phase: Phase::Resampled,
                        ..self
                    },
                    action: Action::Resample(self.audio_queue[0]),
                    video,
                    audio,
                }
            } else if self.exhausted {
                self.done(Fill::Exhausted, video, audio)
            } else {
                Outcome {
                    next: MediaStreamView { phase: Phase::Unit, ..self },
                    action: Action::ReadUnit,
                    video,
                    audio,
                }
            }
        }
    }

    /// The outcome of reading one unit. A failure halts the pipeline. The
    /// end of input is recorded. "Nothing yet" ends the request as pending.
    /// A unit of the video or of the audio stream goes to its decoder; a
    /// unit of another stream is dropped.
    pub open spec fn on_unit(self, status: i32, packet: Packet, video: Seq<u8>, audio: Seq<i32>)
        -> Outcome<F> {
        match spec_read(self.demuxer.again, status, packet) {
            Err(error) => self.fail(error, video, audio),
            Ok(Pull::End) => (MediaStreamView { exhausted: true, ..self }).decide(video, audio),
            Ok(Pull::NoData) => self.done(Fill::Pending, video, audio),
            Ok(Pull::Unit(unit)) => if unit.stream_index == self.video_stream_index {
                Outcome {
                    next: MediaStreamView { phase: Phase::Sent(MediaType::Video), ..self },
                    action: Action::Send(MediaType::Video),
                    video,
                    audio,
                }
            } else if unit.stream_index == self.audio_stream_index {
                Outcome {
                    next: MediaStreamView { phase: Phase::Sent(MediaType::Audio), ..self },
                    action: Action::Send(MediaType::Audio),
                    video,
                    audio,
                }
            } else {
                self.decide(video, audio)
            },
        }
    }

    /// The status of feeding a unit to the decoder of `kind`: a failure
    /// halts the pipeline, otherwise the decoder is asked for a frame.
    pub open spec fn on_sent(self, kind: MediaType, status: i32, video: Seq<u8>, audio: Seq<i32>)
        -> Outcome<F> {
        match spec_send(status) {
            Err(error) => self.fail(error, video, audio),
            Ok(_) => Outcome {
                next: MediaStreamView { phase: Phase::Received(kind), ..self },
                action: Action::Receive(kind),
                video,
                audio,
            },
        }
    }

    /// The answer of the decoder of `kind`: a frame is queued and the
    /// decoder asked again; without a frame the pipeline decides anew; a
    /// failure halts the pipeline.
    pub open spec fn on_received(
        self,
        kind: MediaType,
        status: i32,
        frame: F,
        video: Seq<u8>,
        audio: Seq<i32>,
    ) -> Outcome<F> {
        match spec_receive(self.decoder(kind).again, status, frame) {
            Err(error) => self.fail(error, video, audio),
            Ok(Some(decoded)) => Outcome {
                next: self.enqueue(kind, decoded),
                action: Action::Receive(kind),
                video,
                audio,
            },
            Ok(None) => self.decide(video, audio),
        }
    }

    /// A scaled picture: it becomes the video plane and the audio plane is
    /// next; a failure, or a picture of another size, halts the pipeline.
    pub open spec fn on_scaled(self, status: i32, data: Seq<u8>, video: Seq<u8>, audio: Seq<i32>)
        -> Outcome<F> {
        match spec_scale(status, data, video.len()) {
            Err(error) => self.fail(error, video, audio),
            Ok(_) => (MediaStreamView { video_done: true, ..self }).decide(data, audio),
        }
    }

    /// Converted samples: they go behind the carry and the pipeline decides
    /// anew; a failure halts the pipeline.
    pub open spec fn on_resampled(
        self,
        status: i32,
        output: Seq<i32>,
        video: Seq<u8>,
        audio: Seq<i32>,
    ) -> Outcome<F> {
        match spec_converted(
            status,
            self.audio_resampler.dst_channel_layout.nb_channels as int,
            output,
        ) {
            Err(error) => self.fail(error, video, audio),
            Ok(samples) => (MediaStreamView {
                audio_resampler: self.audio_resampler.push(samples),
                ..self
            }).decide(video, audio),
        }
    }

    /// One step of the pipeline: the state, the action and the planes after
    /// `event`. An event that is not the awaited one halts the pipeline
    /// with `AVERROR_BUG`.
    pub open spec fn step(self, event: EventView<F>, video: Seq<u8>, audio: Seq<i32>) -> Outcome<
        F,
    > {
        match (self.phase, event) {
            (Phase::Idle, EventView::Start) => self.decide(video, audio),
            (Phase::Unit, EventView::Unit { status, packet }) => self.on_unit(
                status,
                packet,
                video,
                audio,
            ),
            (Phase::Sent(kind), EventView::Sent { status }) => self.on_sent(
                kind,
                status,
                video,
                audio,
            ),
            (Phase::Received(kind), EventView::Received { status, frame }) => self.on_received(
                kind,
                status,
                frame,
                video,
                audio,
            ),
            (Phase::Scaled, EventView::Scaled { status, data }) => self.on_scaled(
                status,
                data,
                video,
                audio,
            ),
            (Phase::Resampled, EventView::Resampled { status, output }) => self.on_resampled(
                status,
                output,
                video,
                audio,
            ),
            _ => self.fail(Error { raw: AVERROR_BUG }, video, audio),
        }
    }
}

/// A step keeps the invariant and the sizes of the two planes.
pub proof fn lemma_step_keeps_wf<F>(
    media: MediaStreamView<F>,
    event: EventView<F>,
    video: Seq<u8>,
    audio: Seq<i32>,
)
    requires
        media.wf(),
    ensures
        media.step(event, video, audio).next.wf(),
        media.step(event, video, audio).video.len() == video.len(),
        media.step(event, video, audio).audio.len() == audio.len(),
        media.step(event, video, audio).next.demuxer == media.demuxer,
        media.step(event, video, audio).next.video_stream_index == media.video_stream_index,
        media.step(event, video, audio).next.audio_stream_index == media.audio_stream_index,
{
}

/// Once the container has ended it stays ended, and no unit is read any
/// more. A request that finds nothing left to fill a frame with ends as
/// exhausted and changes nothing, so that every later request ends the
/// same way.
pub proof fn lemma_exhaustion_is_final<F>(
    media: MediaStreamView<F>,
    event: EventView<F>,
    video: Seq<u8>,
    audio: Seq<i32>,
)
    requires
        media.wf(),
        media.exhausted,
    ensures
        media.step(event, video, audio).next.exhausted,
        !(media.phase is Unit) ==> !(media.step(event, video, audio).action is ReadUnit),
        media.step(event, video, audio).action == Action::<F>::Done(Ok(Fill::Exhausted))
            && media.phase is Idle ==> media.step(event, video, audio).next == media
            && media.step(event, video, audio).video == video && media.step(
            event,
            video,
            audio,
        ).audio == audio,
{
}

/// A halted pipeline stays halted: it does not pump, scale or convert any
/// more, every request for a frame ends with the error that halted it,
/// and the planes and the queues stay as they are.
pub proof fn lemma_halt_is_final<F>(
    media: MediaStreamView<F>,
    event: EventView<F>,
    video: Seq<u8>,
    audio: Seq<i32>,
)
    requires
        media.wf(),
        media.failed is Some,
    ensures
        media.step(event, video, audio).next.failed is Some,
        media.step(event, video, audio).action is Done,
        media.step(event, video, audio).action->Done_0 is Err,
        event is Start ==> media.step(event, video, audio).action == Action::<F>::Done(
            Err(media.failed->0),
        ) && media.step(event, video, audio).next == media,
        media.step(event, video, audio).video == video,
        media.step(event, video, audio).audio == audio,
        media.step(event, video, audio).next.video_queue == media.video_queue,
        media.step(event, video, audio).next.audio_queue == media.audio_queue,
        media.step(event, video, audio).next.audio_resampler == media.audio_resampler,
{
}

/// What a run of steps has done: where the pipeline and the planes stand,
/// which frames the decoders gave, and which frames were handed out for
/// conversion, each in order.
pub struct Trace<F> {
    pub state: MediaStreamView<F>,
    pub video: Seq<u8>,
    pub audio: Seq<i32>,
    pub decoded_video: Seq<F>,
    pub decoded_audio: Seq<F>,
    pub scaled: Seq<F>,
    pub resampled: Seq<F>,
    /// The samples that conversions have brought, in order.
    pub converted: Seq<i32>,
    /// The audio planes of the frames that were filled, one after the other.
    pub delivered: Seq<i32>,
}

/// The frame that the decoder of `kind` gives to the pipeline with `event`,
/// if it gives one.
pub open spec fn decoded_by<F>(media: MediaStreamView<F>, event: EventView<F>, kind: MediaType)
    -> Seq<F> {
    match event {
        EventView::Received { status, frame } => if media.phase == Phase::Received(kind) && status
            >= 0 {
            seq![frame]
        } else {
            Seq::empty()
        },
        _ => Seq::empty(),
    }
}

/// The frame of `kind` that an action hands out for conversion, if it
/// hands one out.
pub open spec fn handed_out<F>(action: Action<F>, kind: MediaType) -> Seq<F> {
    match (action, kind) {
        (Action::Scale(frame), MediaType::Video) => seq![frame],
        (Action::Resample(frame), MediaType::Audio) => seq![frame],
        _ => Seq::empty(),
    }
}

/// The samples that a conversion brings to the pipeline with `event`.
pub open spec fn converted_by<F>(media: MediaStreamView<F>, event: EventView<F>) -> Seq<i32> {
    match event {
        EventView::Resampled { status, output } => if media.phase is Resampled {
            match spec_converted(
                status,
                media.audio_resampler.dst_channel_layout.nb_channels as int,
                output,
            ) {
                Ok(samples) => samples,
                Err(_) => Seq::empty(),
            }
        } else {
            Seq::empty()
        },
        _ => Seq::empty(),
    }
}

/// The audio plane that a step fills, if it ends a request as filled.
pub open spec fn delivered_by<F>(outcome: Outcome<F>) -> Seq<i32> {
    if outcome.action == Action::<F>::Done(Ok(Fill::Filled)) {
        outcome.audio
    } else {
        Seq::empty()
    }
}

/// What the steps for `events` do, one after the other.
pub open spec fn run<F>(
    media: MediaStreamView<F>,
    events: Seq<EventView<F>>,
    video: Seq<u8>,
    audio: Seq<i32>,
) -> Trace<F>
    decreases events.len(),
{
    if events.len() == 0 {
        Trace {
            state: media,
            video,
            audio,
            decoded_video: Seq::empty(),
            decoded_audio: Seq::empty(),
            scaled: Seq::empty(),
            resampled: Seq::empty(),
            converted: Seq::empty(),
            delivered: Seq::empty(),
        }
    } else {
        let before = run(media, events.drop_last(), video, audio);
        let outcome = before.state.step(events.last(), before.video, before.audio);
        Trace {
            state: outcome.next,
            video: outcome.video,
            audio: outcome.audio,
            decoded_video: before.decoded_video + decoded_by(
                before.state,
                events.last(),
                MediaType::Video,
            ),
            decoded_audio: before.decoded_audio + decoded_by(
                before.state,
                events.last(),
                MediaType::Audio,
            ),
            scaled: before.scaled + handed_out(outcome.action, MediaType::Video),
            resampled: before.resampled + handed_out(outcome.action, MediaType::Audio),
            converted: before.converted + converted_by(before.state, events.last()),
            delivered: before.delivered + delivered_by(outcome),
        }
    }
}

/// In one step, a frame that is handed out is the oldest that waits, and a
/// frame that is decoded goes behind those that wait.
pub proof fn lemma_step_is_fifo<F>(
    media: MediaStreamView<F>,
    event: EventView<F>,
    video: Seq<u8>,
    audio: Seq<i32>,
)
    requires
        media.wf(),
    ensures
        ({
            let outcome = media.step(event, video, audio);
            &&& handed_out(outcome.action, MediaType::Video) + outcome.next.video_queue
                == media.video_queue + decoded_by(media, event, MediaType::Video)
            &&& handed_out(outcome.action, MediaType::Audio) + outcome.next.audio_queue
                == media.audio_queue + decoded_by(media, event, MediaType::Audio)
        }),
{
    let outcome = media.step(event, video, audio);
    let video_before = media.video_queue + decoded_by(media, event, MediaType::Video);
    let audio_before = media.audio_queue + decoded_by(media, event, MediaType::Audio);
    assert(handed_out(outcome.action, MediaType::Video) + outcome.next.video_queue
        =~= video_before);
    assert(handed_out(outcome.action, MediaType::Audio) + outcome.next.audio_queue
        =~= audio_before);
}

/// In one step, what fills an audio plane is the front of the carry, and
/// what a conversion brings goes behind the carry.
pub proof fn lemma_step_keeps_samples<F>(
    media: MediaStreamView<F>,
    event: EventView<F>,
    video: Seq<u8>,
    audio: Seq<i32>,
)
    requires
        media.wf(),
    ensures
        ({
            let outcome = media.step(event, video, audio);
            delivered_by(outcome) + outcome.next.audio_resampler.carry
                == media.audio_resampler.carry + converted_by(media, event)
        }),
{
    let outcome = media.step(event, video, audio);
    let carry = media.audio_resampler.carry + converted_by(media, event);
    if carry.len() >= audio.len() {
        assert(carry.take(audio.len() as int) + carry.skip(audio.len() as int) =~= carry);
    }
    assert(delivered_by(outcome) + outcome.next.audio_resampler.carry =~= carry);
}

/// Whatever the driver reports and however the converted audio is cut
/// into chunks, the audio planes of the frames that were filled, one after
/// the other and followed by the carry, are the carry at the start followed
/// by all that conversions have brought: no sample is lost, repeated or
/// reordered.
pub proof fn lemma_samples_are_kept<F>(
    media: MediaStreamView<F>,
    events: Seq<EventView<F>>,
    video: Seq<u8>,
    audio: Seq<i32>,
)
    requires
        media.wf(),
    ensures
        ({
            let trace = run(media, events, video, audio);
            trace.delivered + trace.state.audio_resampler.carry == media.audio_resampler.carry
                + trace.converted
        }),
    decreases events.len(),
{
    let trace = run(media, events, video, audio);
    if events.len() == 0 {
        assert(trace.delivered + trace.state.audio_resampler.carry
            =~= media.audio_resampler.carry + trace.converted);
    } else {
        let before = run(media, events.drop_last(), video, audio);
        lemma_samples_are_kept(media, events.drop_last(), video, audio);
        lemma_queues_are_fifo(media, events.drop_last(), video, audio);
        lemma_step_keeps_samples(before.state, events.last(), before.video, before.audio);
        let outcome = before.state.step(events.last(), before.video, before.audio);
        let incoming = converted_by(before.state, events.last());
        assert(trace.delivered + trace.state.audio_resampler.carry =~= before.delivered + (
        delivered_by(outcome) + outcome.next.audio_resampler.carry));
        assert(media.audio_resampler.carry + trace.converted =~= (media.audio_resampler.carry
            + before.converted) + incoming);
        assert((before.delivered + before.state.audio_resampler.carry) + incoming
            =~= before.delivered + (before.state.audio_resampler.carry + incoming));
    }
}

/// The two queues are first in, first out, each on its own: whatever the
/// driver reports, the frames handed out for scaling, followed by the
/// pictures that wait, are the pictures that waited at the start followed
/// by those decoded since; and so for the audio frames. No frame is lost,
/// repeated or overtaken.
pub proof fn lemma_queues_are_fifo<F>(
    media: MediaStreamView<F>,
    events: Seq<EventView<F>>,
    video: Seq<u8>,
    audio: Seq<i32>,
)
    requires
        media.wf(),
    ensures
        ({
            let trace = run(media, events, video, audio);
            &&& trace.state.wf()
            &&& trace.video.len() == video.len()
            &&& trace.audio.len() == audio.len()
            &&& trace.scaled + trace.state.video_queue == media.video_queue + trace.decoded_video
            &&& trace.resampled + trace.state.audio_queue == media.audio_queue
                + trace.decoded_audio
        }),
    decreases events.len(),
{
    let trace = run(media, events, video, audio);
    if events.len() == 0 {
        assert(trace.scaled + trace.state.video_queue =~= media.video_queue + trace.decoded_video);
        assert(trace.resampled + trace.state.audio_queue =~= media.audio_queue
            + trace.decoded_audio);
    } else {
        let before = run(media, events.drop_last(), video, audio);
        lemma_queues_are_fifo(media, events.drop_last(), video, audio);
        lemma_step_keeps_wf(before.state, events.last(), before.video, before.audio);
        lemma_step_is_fifo(before.state, events.last(), before.video, before.audio);
        let outcome = before.state.step(events.last(), before.video, before.audio);
        let out_video = handed_out(outcome.action, MediaType::Video);
        let in_video = decoded_by(before.state, events.last(), MediaType::Video);
        assert(trace.scaled + trace.state.video_queue =~= before.scaled + (out_video
            + outcome.next.video_queue));
        assert(media.video_queue + trace.decoded_video =~= (media.video_queue
            + before.decoded_video) + in_video);
        assert((before.scaled + before.state.video_queue) + in_video =~= before.scaled + (
        before.state.video_queue + in_video));
        let out_audio = handed_out(outcome.action, MediaType::Audio);
        let in_audio = decoded_by(before.state, events.last(), MediaType::Audio);
        assert(trace.resampled + trace.state.audio_queue =~= before.resampled + (out_audio
            + outcome.next.audio_queue));
        assert(media.audio_queue + trace.decoded_audio =~= (media.audio_queue
            + before.decoded_audio) + in_audio);
        assert((before.resampled + before.state.audio_queue) + in_audio =~= before.resampled + (
        before.state.audio_queue + in_audio));
    }
}

/// The source pipeline over one container: the streams that it decodes,
/// the frames that wait for conversion, and what it waits for. `F` is the
/// driver's decoded frame, which the pipeline queues and hands back.
pub struct MediaStream<F> {
    demuxer: Demuxer,
    video_stream_index: i32,
    video_decoder: Decoder,
    video_scaler: Scaler,
    video_queue: VecDeque<F>,
    audio_stream_index: i32,
    audio_decoder: Decoder,
    audio_resampler: Resampler,
    audio_queue: VecDeque<F>,
    phase: Phase,
    video_done: bool,
    exhausted: bool,
    failed: Option<Error>,
}

impl<F> View for MediaStream<F> {
    type V = MediaStreamView<F>;

    closed spec fn view(&self) -> MediaStreamView<F> {
        MediaStreamView {
            demuxer: self.demuxer@,
            video_stream_index: self.video_stream_index,
            video_decoder: self.video_decoder,
            video_scaler: self.video_scaler,
            video_queue: self.video_queue@,
            audio_stream_index: self.audio_stream_index,
            audio_decoder: self.audio_decoder,
            audio_resampler: self.audio_resampler@,
            audio_queue: self.audio_queue@,
            phase: self.phase,
            video_done: self.video_done,
            exhausted: self.exhausted,
            failed: self.failed,
        }
    }
}

impl<F> MediaStream<F> {
    /// The invariant of the pipeline.
    pub open spec fn wf(&self) -> bool {
        self@.wf()
    }

    /// The pipeline over the best video and the best audio stream of
    /// `demuxer`, scaling to the canvas and converting to the audio format
    /// of a slot. Fails with `AVERROR_STREAM_NOT_FOUND` exactly when the
    /// container lacks a video or an audio stream, and with
    /// `AVERROR_EINVAL` exactly when it has both and the best audio stream
    /// declares a rate or a channel count that is not positive.
    pub fn new(demuxer: Demuxer) -> (result: Result<MediaStream<F>, Error>)
        requires
            demuxer.wf(),
        ensures
            result.is_ok() <==> demuxer@.has(MediaType::Video) && demuxer@.has(MediaType::Audio)
                && forall|index: int|
                demuxer@.is_best(MediaType::Audio, index) ==> spec_convertible(
                    (#[trigger] demuxer@.streams[index]).params.ch_layout,
                    demuxer@.streams[index].params.sample_rate,
                    spec_stereo(),
                    SAMPLE_RATE as i32,
                ),
            match result {
                Ok(media) => {
                    &&& media.wf()
                    &&& demuxer@.is_best(MediaType::Video, media@.video_stream_index as int)
                    &&& demuxer@.is_best(MediaType::Audio, media@.audio_stream_index as int)
                    &&& media@ == MediaStreamView::<F>::initial(
                        demuxer@,
                        media@.video_stream_index as int,
                        media@.audio_stream_index as int,
                    )
                },
                Err(error) => {
                    ||| (error.raw == AVERROR_STREAM_NOT_FOUND && !(demuxer@.has(MediaType::Video)
                        && demuxer@.has(MediaType::Audio)))
                    ||| (error.raw == AVERROR_EINVAL && demuxer@.has(MediaType::Video) && exists|
                        index: int,
                    |
                        #![trigger demuxer@.streams[index]]
                        demuxer@.is_best(MediaType::Audio, index) && !spec_convertible(
                            demuxer@.streams[index].params.ch_layout,
                            demuxer@.streams[index].params.sample_rate,
                            spec_stereo(),
                            SAMPLE_RATE as i32,
                        ))
                },
            },
    {
        let (video_stream_index, video_stream, video_decoder) = match demuxer.find_best_stream(
            MediaType::Video,
        ) {
            Ok(found) => found,
            Err(error) => {
                return Err(error);
            },
        };
        let (audio_stream_index, audio_stream, audio_decoder) = match demuxer.find_best_stream(
            MediaType::Audio,
        ) {
            Ok(found) => found,
            Err(error) => {
                return Err(error);
            },
        };
        let video_scaler = Scaler::new(
            video_stream.width(),
            video_stream.height(),
            video_stream.pixel_format(),
            WIDTH as i32,
            HEIGHT as i32,
            AV_PIX_FMT_BGRA,
        );
        let audio_resampler = match Resampler::new(
            audio_stream.channel_layout(),
            audio_stream.sample_format(),
            audio_stream.sample_rate(),
            AV_CHANNEL_LAYOUT_STEREO(),
            AV_SAMPLE_FMT_S32,
            SAMPLE_RATE as i32,
        ) {
            Ok(resampler) => resampler,
            Err(error) => {
                assert(demuxer@.is_best(MediaType::Audio, audio_stream_index as int));
                assert(!spec_convertible(
                    demuxer@.streams[audio_stream_index as int].params.ch_layout,
                    demuxer@.streams[audio_stream_index as int].params.sample_rate,
                    spec_stereo(),
                    SAMPLE_RATE as i32,
                ));
                return Err(error);
            },
        };
        let media = MediaStream {
            demuxer,
            video_stream_index,
            video_decoder,
            video_scaler,
            video_queue: VecDeque::new(),
            audio_stream_index,
            audio_decoder,
            audio_resampler,
            audio_queue: VecDeque::new(),
            phase: Phase::Idle,
            video_done: false,
            exhausted: false,
            failed: None,
        };
        assert(media@.video_queue =~= Seq::<F>::empty());
        assert(media@.audio_queue =~= Seq::<F>::empty());
        assert forall|index: int| demuxer@.is_best(MediaType::Audio, index) implies spec_convertible(
            (#[trigger] demuxer@.streams[index]).params.ch_layout,
            demuxer@.streams[index].params.sample_rate,
            spec_stereo(),
            SAMPLE_RATE as i32,
        ) by {
            lemma_best_is_unique(demuxer@, MediaType::Audio, index, audio_stream_index as int);
        }
        Ok(media)
    }

    /// The index of the video stream.
    pub fn video_stream_index(&self) -> (index: i32)
        ensures
            index == self@.video_stream_index,
    {
        self.video_stream_index
    }

    /// The index of the audio stream.
    pub fn audio_stream_index(&self) -> (index: i32)
        ensures
            index == self@.audio_stream_index,
    {
        self.audio_stream_index
    }

    /// The scaling to set up for the video stream.
    pub fn video_scaler(&self) -> (scaler: Scaler)
        ensures
            scaler == self@.video_scaler,
    {
        self.video_scaler
    }

    /// The conversion to set up for the audio stream.
    pub fn audio_resampler(&self) -> (resampler: &Resampler)
        ensures
            resampler@ == self@.audio_resampler,
    {
        &self.audio_resampler
    }

    /// The error that halted the pipeline, if one did.
    pub fn failure(&self) -> (failed: Option<Error>)
        ensures
            failed == self@.failed,
    {
        self.failed
    }

    /// Whether the container has ended.
    pub fn is_exhausted(&self) -> (exhausted: bool)
        ensures
            exhausted == self@.exhausted,
    {
        self.exhausted
    }

    fn fail(&mut self, error: Error) -> (action: Action<F>)
        ensures
            final(self)@ == (MediaStreamView {
                failed: Some(error),
                phase: Phase::Idle,
                ..old(self)@
            }),
            action == Action::<F>::Done(Err(error)),
    {
        self.failed = Some(error);
        self.phase = Phase::Idle;
        Action::Done(Err(error))
    }

    fn decide(&mut self, audio: &mut [i32]) -> (action: Action<F>)
        requires
            old(self).wf(),
        ensures
            final(self).wf(),
            forall|video: Seq<u8>|
                (Outcome { next: final(self)@, action, video, audio: final(audio)@ }) == (
                #[trigger] old(self)@.decide(video, old(audio)@)),
    {
        if let Some(error) = self.failed {
            return self.fail(error);
        }
        if !self.video_done {
            match self.video_queue.pop_front() {
                Some(frame) => {
                    self.phase = Phase::Scaled;
                    assert(self.video_queue@ =~= old(self)@.video_queue.skip(1));
                    Action::Scale(frame)
                },
                None => {
                    if self.exhausted {
                        self.phase = Phase::Idle;
                        Action::Done(Ok(Fill::Exhausted))
                    } else {
                        self.phase = Phase::Unit;
                        Action::ReadUnit
                    }
                },
            }
        } else {
            if self.audio_resampler.fill(audio) {
                self.video_done = false;
                self.phase = Phase::Idle;
                Action::Done(Ok(Fill::Filled))
            } else {
                match self.audio_queue.pop_front() {
                    Some(frame) => {
                        self.phase = Phase::Resampled;
                        assert(self.audio_queue@ =~= old(self)@.audio_queue.skip(1));
                        Action::Resample(frame)
                    },
                    None => {
                        if self.exhausted {
                            self.phase = Phase::Idle;
                            Action::Done(Ok(Fill::Exhausted))
                        } else {
                            self.phase = Phase::Unit;
                            Action::ReadUnit
                        }
                    },
                }
            }
        }
    }

    /// Takes one step: reads `event`, changes state, fills what it can of
    /// the two planes of the slot, and says what to do next. The planes
    /// change only as the action says: the video plane when a scaled
    /// picture arrives, the audio plane when the request ends as filled.
    pub fn step(
        &mut self,
        event: Event<'_, F>,
        video: &mut [u8],
        audio: &mut [i32],
    ) -> (action: Action<F>)
        requires
            old(self).wf(),
        ensures
            final(self).wf(),
            (Outcome { next: final(self)@, action, video: final(video)@, audio: final(audio)@ })
                == old(self)@.step(event@, old(video)@, old(audio)@),
    {
        match (self.phase, event) {
            (Phase::Idle, Event::Start) => self.decide(audio),
            (Phase::Unit, Event::Unit { status, packet }) => {
                match self.demuxer.read(status, packet) {
                    Err(error) => self.fail(error),
                    Ok(Pull::End) => {
                        self.exhausted = true;
                        self.decide(audio)
                    },
                    Ok(Pull::NoData) => {
                        self.phase = Phase::Idle;
                        Action::Done(Ok(Fill::Pending))
                    },
                    Ok(Pull::Unit(unit)) => {
                        if unit.stream_index() == self.video_stream_index {
                            self.phase = Phase::Sent(MediaType::Video);
                            Action::Send(MediaType::Video)
                        } else if unit.stream_index() == self.audio_stream_index {
                            self.phase = Phase::Sent(MediaType::Audio);
                            Action::Send(MediaType::Audio)
                        } else {
                            self.decide(audio)
                        }
                    },
                }
            },
            (Phase::Sent(kind), Event::Sent { status }) => {
                let decoder = match kind {
                    MediaType::Video => self.video_decoder,
                    MediaType::Audio => self.audio_decoder,
                };
                match decoder.send(status) {
                    Err(error) => self.fail(error),
                    Ok(_) => {
                        self.phase = Phase::Received(kind);
                        Action::Receive(kind)
                    },
                }
            },
            (Phase::Received(kind), Event::Received { status, frame }) => {
                let decoder = match kind {
                    MediaType::Video => self.video_decoder,
                    MediaType::Audio => self.audio_decoder,
                };
                match decoder.receive(status, frame) {
                    Err(error) => self.fail(error),
                    Ok(Some(decoded)) => {
                        match kind {
                            MediaType::Video => self.video_queue.push_back(decoded),
                            MediaType::Audio => self.audio_queue.push_back(decoded),
                        }
                        Action::Receive(kind)
                    },
                    Ok(None) => self.decide(audio),
                }
            },
            (Phase::Scaled, Event::Scaled { status, data }) => {
                match self.video_scaler.scale(status, data, video) {
                    Err(error) => self.fail(error),
                    Ok(_) => {
                        self.video_done = true;
                        self.decide(audio)
                    },
                }
            },
            (Phase::Resampled, Event::Resampled { status, output }) => {
                match self.audio_resampler.convert(status, output) {
                    Err(error) => self.fail(error),
                    Ok(_) => self.decide(audio),
                }
            },
            _ => self.fail(Error { raw: AVERROR_BUG }),
        }
    }

    /// Takes one step towards the next frame of a triple buffer: the planes
    /// are those of the writer's slot, and the slot is published when the
    /// request ends as filled. Until then the reader sees nothing of it.
    pub fn get_next_triple_buffer(
        &mut self,
        event: Event<'_, F>,
        buffer: &mut TripleBuffer,
    ) -> (action: Action<F>)
        requires
            old(self).wf(),
            old(buffer).wf(),
        ensures
            final(self).wf(),
            final(buffer).wf(),
            ({
                let back = old(buffer)@.back();
                let outcome = old(self)@.step(event@, back.video, back.audio);
                let frame = BufferView { video: outcome.video, audio: outcome.audio };
                &&& final(self)@ == outcome.next
                &&& action == outcome.action
                &&& final(buffer)@ == if action == Action::<F>::Done(Ok(Fill::Filled)) {
                    old(buffer)@.store(frame).publish()
                } else {
                    old(buffer)@.store(frame)
                }
            }),
    {
        proof {
            lemma_step_keeps_wf(
                self@,
                event@,
                buffer@.back().video,
                buffer@.back().audio,
            );
        }
        let slot = buffer.write();
        let (video, audio) = slot.planes_mut();
        let action = self.step(event, video, audio);
        let filled: bool = match &action {
            Action::Done(Ok(Fill::Filled)) => true,
            _ => false,
        };
        if filled {
            buffer.done_writing();
        }
        action
    }
}

} // verus!
