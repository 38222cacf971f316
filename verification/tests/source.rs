use av_pipeline::error::{Error, AVERROR_BUG, AVERROR_EOF, AVERROR_INVALIDDATA, AVERROR_STREAM_NOT_FOUND};
use av_pipeline::format::AUDIO_SAMPLES_PER_FRAME;
use av_pipeline::resample::AVERROR_EINVAL;
use av_pipeline::scale::Scaler;
use av_pipeline::source::{Action, Event, Fill, MediaStream};
use av_pipeline::stream::{
    ChannelLayout, CodecParameters, Demuxer, MediaType, Packet, AV_CHANNEL_LAYOUT_STEREO,
};
use av_pipeline::triple_buffer::TripleBuffer;
use std::collections::VecDeque;

const AGAIN: i32 = -11;
const VIDEO: i32 = 1;
const AUDIO: i32 = 2;
const PLANE: usize = 16;

fn params(media_type: Option<MediaType>, sample_rate: i32) -> CodecParameters {
    CodecParameters {
        media_type,
        width: 640,
        height: 360,
        format: 3,
        ch_layout: AV_CHANNEL_LAYOUT_STEREO(),
        sample_rate,
        bit_rate: 1000,
    }
}

fn container() -> Demuxer {
    let streams = vec![
        params(None, 0),
        params(Some(MediaType::Video), 0),
        params(Some(MediaType::Audio), 44_100),
    ];
    Demuxer::new(&streams, Error { raw: AGAIN }).unwrap()
}

/// A container played from a script: each unit belongs to a stream and
/// decodes to some frames, named by numbers.
struct Script {
    units: VecDeque<(i32, i32, Vec<u32>)>,
    decoded: VecDeque<u32>,
    samples_per_frame: usize,
    scaled: Vec<u32>,
    resampled: Vec<u32>,
    reads: usize,
}

impl Script {
    fn new(samples_per_frame: usize) -> Script {
        Script {
            units: VecDeque::new(),
            decoded: VecDeque::new(),
            samples_per_frame,
            scaled: Vec::new(),
            resampled: Vec::new(),
            reads: 0,
        }
    }

    fn unit(&mut self, stream: i32, frames: Vec<u32>) {
        self.units.push_back((0, stream, frames));
    }

    fn status(&mut self, status: i32) {
        self.units.push_back((status, 0, Vec::new()));
    }
}

fn picture(frame: u32) -> Vec<u8> {
    (0..PLANE).map(|i| (frame as usize * 31 + i) as u8).collect()
}

fn sound(frame: u32, samples: usize) -> Vec<i32> {
    (0..samples * 2).map(|i| (frame as i32) * 100_000 + i as i32).collect()
}

fn drive(
    media: &mut MediaStream<u32>,
    script: &mut Script,
    video: &mut [u8],
    audio: &mut [i32],
) -> Result<Fill, Error> {
    let mut action = media.step(Event::Start, video, audio);
    loop {
        action = match action {
            Action::ReadUnit => {
                script.reads += 1;
                let (status, stream_index, frames) =
                    script.units.pop_front().unwrap_or((AVERROR_EOF, 0, Vec::new()));
                script.decoded = frames.into();
                let packet = Packet { stream_index, keyframe: false };
                media.step(Event::Unit { status, packet }, video, audio)
            }
            Action::Send(_) => media.step(Event::Sent { status: 0 }, video, audio),
            Action::Receive(_) => match script.decoded.pop_front() {
                Some(frame) => media.step(Event::Received { status: 0, frame }, video, audio),
                None => media.step(Event::Received { status: AGAIN, frame: 0 }, video, audio),
            },
            Action::Scale(frame) => {
                script.scaled.push(frame);
                let data = picture(frame);
                media.step(Event::Scaled { status: 0, data: &data }, video, audio)
            }
            Action::Resample(frame) => {
                script.resampled.push(frame);
                let output = sound(frame, script.samples_per_frame);
                let status = script.samples_per_frame as i32;
                media.step(Event::Resampled { status, output: &output }, video, audio)
            }
            Action::Done(result) => return result,
        }
    }
}

#[test]
fn ten_seconds_give_250_frames_and_then_exhaustion() {
    let mut media: MediaStream<u32> = MediaStream::new(container()).unwrap();
    let mut script = Script::new(1024);
    // 10 s at 25 pictures and 48000 samples per second: the audio comes in
    // frames of 1024 samples that do not line up with the pictures.
    let mut sound_frames = 0u32;
    for picture in 0..250u32 {
        script.unit(VIDEO, vec![picture]);
        script.unit(0, vec![9999]);
        while (sound_frames as usize) * 1024 < (picture as usize + 1) * 1920 {
            script.unit(AUDIO, vec![1000 + sound_frames]);
            sound_frames += 1;
        }
    }
    assert_eq!(sound_frames, 469);
    let all_sound: Vec<i32> = (0..sound_frames).flat_map(|f| sound(1000 + f, 1024)).collect();

    let mut video = vec![0u8; PLANE];
    let mut audio = vec![0i32; AUDIO_SAMPLES_PER_FRAME];
    let mut frames = 0usize;
    loop {
        match drive(&mut media, &mut script, &mut video, &mut audio) {
            Ok(Fill::Filled) => {
                assert_eq!(video, picture(frames as u32));
                assert!(video.iter().any(|byte| *byte != 0));
                let from = frames * AUDIO_SAMPLES_PER_FRAME;
                assert_eq!(audio[..], all_sound[from..from + AUDIO_SAMPLES_PER_FRAME]);
                frames += 1;
            }
            other => {
                assert_eq!(other, Ok(Fill::Exhausted));
                break;
            }
        }
    }
    assert_eq!(frames, 250);
    assert!(media.is_exhausted());
    assert_eq!(media.failure(), None);
    assert_eq!(script.scaled, (0..250).collect::<Vec<u32>>());
    assert_eq!(script.resampled, (1000..1469).collect::<Vec<u32>>());
    // Asking again reads nothing more.
    let reads = script.reads;
    assert_eq!(drive(&mut media, &mut script, &mut video, &mut audio), Ok(Fill::Exhausted));
    assert_eq!(script.reads, reads);
}

#[test]
fn frames_leave_in_the_order_in_which_they_were_decoded() {
    let mut media: MediaStream<u32> = MediaStream::new(container()).unwrap();
    let mut script = Script::new(4);
    script.unit(VIDEO, vec![1, 2, 3]);
    script.unit(AUDIO, vec![10, 11]);
    script.unit(AUDIO, vec![12, 13, 14]);
    script.unit(VIDEO, vec![]);
    script.unit(VIDEO, vec![4]);
    let mut video = vec![0u8; PLANE];
    let mut audio = vec![0i32; 16];
    let mut pictures = Vec::new();
    let mut sounds = Vec::new();
    while drive(&mut media, &mut script, &mut video, &mut audio) == Ok(Fill::Filled) {
        pictures.push(video.clone());
        sounds.extend(audio.iter().copied());
    }
    // The sound fills two frames and a half: the third frame is not made.
    assert_eq!(pictures, vec![picture(1), picture(2)]);
    let expected: Vec<i32> = [10, 11, 12, 13, 14].iter().flat_map(|f| sound(*f, 4)).collect();
    assert_eq!(sounds, expected[..32].to_vec());
    assert_eq!(script.scaled, vec![1, 2, 3]);
    assert_eq!(script.resampled, vec![10, 11, 12, 13, 14]);
    assert_eq!(media.audio_resampler().pending(), 8);
    assert!(media.is_exhausted());
}

#[test]
fn nothing_yet_is_pending_and_the_frame_goes_on_later() {
    let mut media: MediaStream<u32> = MediaStream::new(container()).unwrap();
    let mut script = Script::new(4);
    script.unit(VIDEO, vec![7]);
    script.status(AGAIN);
    script.unit(AUDIO, vec![20]);
    script.status(AGAIN);
    script.unit(AUDIO, vec![21]);
    let mut video = vec![0u8; PLANE];
    let mut audio = vec![0i32; 16];
    assert_eq!(drive(&mut media, &mut script, &mut video, &mut audio), Ok(Fill::Pending));
    // The video plane is done, the audio plane is not.
    assert_eq!(video, picture(7));
    assert_eq!(audio, vec![0; 16]);
    assert!(!media.is_exhausted());
    assert_eq!(drive(&mut media, &mut script, &mut video, &mut audio), Ok(Fill::Pending));
    assert_eq!(audio, vec![0; 16]);
    assert_eq!(drive(&mut media, &mut script, &mut video, &mut audio), Ok(Fill::Filled));
    assert_eq!(video, picture(7));
    let expected: Vec<i32> = [20, 21].iter().flat_map(|f| sound(*f, 4)).collect();
    assert_eq!(audio, expected);
    assert_eq!(script.scaled, vec![7]);
}

#[test]
fn a_decode_error_halts_the_pipeline_for_good() {
    let mut media: MediaStream<u32> = MediaStream::new(container()).unwrap();
    let mut video = vec![0u8; PLANE];
    let mut audio = vec![0i32; 16];
    assert!(matches!(media.step(Event::Start, &mut video, &mut audio), Action::ReadUnit));
    let packet = Packet { stream_index: VIDEO, keyframe: true };
    assert!(matches!(
        media.step(Event::Unit { status: 0, packet }, &mut video, &mut audio),
        Action::Send(MediaType::Video)
    ));
    let corrupt = Error { raw: AVERROR_INVALIDDATA };
    assert!(matches!(
        media.step(Event::Sent { status: AVERROR_INVALIDDATA }, &mut video, &mut audio),
        Action::Done(Err(e)) if e == corrupt
    ));
    assert_eq!(media.failure(), Some(corrupt));
    // No retry: the next request ends at once, with the same error.
    for _ in 0..3 {
        assert!(matches!(
            media.step(Event::Start, &mut video, &mut audio),
            Action::Done(Err(e)) if e == corrupt
        ));
    }
    assert_eq!(video, vec![0; PLANE]);
}

#[test]
fn failures_of_reading_receiving_scaling_and_resampling_halt() {
    for stage in 0..4 {
        let mut media: MediaStream<u32> = MediaStream::new(container()).unwrap();
        let mut script = Script::new(4);
        let mut video = vec![0u8; PLANE];
        let mut audio = vec![0i32; 16];
        let last = match stage {
            0 => {
                media.step(Event::Start, &mut video, &mut audio);
                let packet = Packet { stream_index: 0, keyframe: false };
                media.step(Event::Unit { status: -5, packet }, &mut video, &mut audio)
            }
            1 => {
                media.step(Event::Start, &mut video, &mut audio);
                let packet = Packet { stream_index: AUDIO, keyframe: false };
                media.step(Event::Unit { status: 0, packet }, &mut video, &mut audio);
                media.step(Event::Sent { status: 0 }, &mut video, &mut audio);
                media.step(Event::Received { status: -5, frame: 0 }, &mut video, &mut audio)
            }
            2 => {
                script.unit(VIDEO, vec![1]);
                media.step(Event::Start, &mut video, &mut audio);
                let packet = Packet { stream_index: VIDEO, keyframe: false };
                media.step(Event::Unit { status: 0, packet }, &mut video, &mut audio);
                media.step(Event::Sent { status: 0 }, &mut video, &mut audio);
                media.step(Event::Received { status: 0, frame: 1 }, &mut video, &mut audio);
                let next = media.step(Event::Received { status: AGAIN, frame: 0 }, &mut video, &mut audio);
                assert!(matches!(next, Action::Scale(1)));
                media.step(Event::Scaled { status: -5, data: &[] }, &mut video, &mut audio)
            }
            _ => {
                script.unit(VIDEO, vec![1]);
                script.unit(AUDIO, vec![2]);
                media.step(Event::Start, &mut video, &mut audio);
                let packet = Packet { stream_index: VIDEO, keyframe: false };
                media.step(Event::Unit { status: 0, packet }, &mut video, &mut audio);
                media.step(Event::Sent { status: 0 }, &mut video, &mut audio);
                media.step(Event::Received { status: 0, frame: 1 }, &mut video, &mut audio);
                media.step(Event::Received { status: AVERROR_EOF, frame: 0 }, &mut video, &mut audio);
                let data = picture(1);
                let next = media.step(Event::Scaled { status: 0, data: &data }, &mut video, &mut audio);
                assert!(matches!(next, Action::ReadUnit));
                let packet = Packet { stream_index: AUDIO, keyframe: false };
                media.step(Event::Unit { status: 0, packet }, &mut video, &mut audio);
                media.step(Event::Sent { status: 0 }, &mut video, &mut audio);
                media.step(Event::Received { status: 0, frame: 2 }, &mut video, &mut audio);
                let next = media.step(Event::Received { status: AGAIN, frame: 0 }, &mut video, &mut audio);
                assert!(matches!(next, Action::Resample(2)));
                media.step(Event::Resampled { status: -5, output: &[] }, &mut video, &mut audio)
            }
        };
        assert!(matches!(last, Action::Done(Err(Error { raw: -5 }))));
        assert_eq!(media.failure(), Some(Error { raw: -5 }));
        assert_eq!(drive(&mut media, &mut script, &mut video, &mut audio), Err(Error { raw: -5 }));
    }
}

#[test]
fn a_picture_of_the_wrong_size_is_invalid_data() {
    let mut media: MediaStream<u32> = MediaStream::new(container()).unwrap();
    let mut video = vec![0u8; PLANE];
    let mut audio = vec![0i32; 16];
    media.step(Event::Start, &mut video, &mut audio);
    let packet = Packet { stream_index: VIDEO, keyframe: false };
    media.step(Event::Unit { status: 0, packet }, &mut video, &mut audio);
    media.step(Event::Sent { status: 0 }, &mut video, &mut audio);
    media.step(Event::Received { status: 0, frame: 1 }, &mut video, &mut audio);
    media.step(Event::Received { status: AGAIN, frame: 0 }, &mut video, &mut audio);
    let short = vec![1u8; PLANE - 1];
    let last = media.step(Event::Scaled { status: 0, data: &short }, &mut video, &mut audio);
    assert!(matches!(last, Action::Done(Err(Error { raw: AVERROR_INVALIDDATA }))));
    assert_eq!(video, vec![0; PLANE]);
}

#[test]
fn an_event_out_of_turn_is_a_bug() {
    let mut media: MediaStream<u32> = MediaStream::new(container()).unwrap();
    let mut video = vec![0u8; PLANE];
    let mut audio = vec![0i32; 16];
    let last = media.step(Event::Sent { status: 0 }, &mut video, &mut audio);
    assert!(matches!(last, Action::Done(Err(Error { raw: AVERROR_BUG }))));
    assert_eq!(media.failure(), Some(Error { raw: AVERROR_BUG }));
}

#[test]
fn new_selects_the_best_streams_and_sets_up_the_conversions() {
    let media: MediaStream<u32> = MediaStream::new(container()).unwrap();
    assert_eq!(media.video_stream_index(), 1);
    assert_eq!(media.audio_stream_index(), 2);
    assert_eq!(
        media.video_scaler(),
        Scaler {
            src_width: 640,
            src_height: 360,
            src_pixel_format: 3,
            dst_width: 1920,
            dst_height: 1080,
            dst_pixel_format: 28,
        }
    );
    assert_eq!(media.audio_resampler().pending(), 0);
    assert_eq!(media.failure(), None);
    assert!(!media.is_exhausted());
}

#[test]
fn new_needs_both_kinds_of_stream() {
    let again = Error { raw: AGAIN };
    let only_video = Demuxer::new(&vec![params(Some(MediaType::Video), 0)], again).unwrap();
    let failed: Result<MediaStream<u32>, Error> = MediaStream::new(only_video);
    assert_eq!(failed.err(), Some(Error { raw: AVERROR_STREAM_NOT_FOUND }));
    let only_audio = Demuxer::new(&vec![params(Some(MediaType::Audio), 48_000)], again).unwrap();
    let failed: Result<MediaStream<u32>, Error> = MediaStream::new(only_audio);
    assert_eq!(failed.err(), Some(Error { raw: AVERROR_STREAM_NOT_FOUND }));
    let nothing = Demuxer::new(&vec![], again).unwrap();
    let failed: Result<MediaStream<u32>, Error> = MediaStream::new(nothing);
    assert_eq!(failed.err(), Some(Error { raw: AVERROR_STREAM_NOT_FOUND }));
}

#[test]
fn new_refuses_audio_without_a_rate() {
    let again = Error { raw: AGAIN };
    let mut silent = params(Some(MediaType::Audio), 0);
    let streams = vec![params(Some(MediaType::Video), 0), silent];
    let failed: Result<MediaStream<u32>, Error> = MediaStream::new(Demuxer::new(&streams, again).unwrap());
    assert_eq!(failed.err(), Some(Error { raw: AVERROR_EINVAL }));
    silent.sample_rate = 8000;
    silent.ch_layout = ChannelLayout { order: 0, nb_channels: 0, mask: 0 };
    let streams = vec![params(Some(MediaType::Video), 0), silent];
    let failed: Result<MediaStream<u32>, Error> = MediaStream::new(Demuxer::new(&streams, again).unwrap());
    assert_eq!(failed.err(), Some(Error { raw: AVERROR_EINVAL }));
}

#[test]
fn a_filled_frame_is_published_to_the_triple_buffer() {
    let mut media: MediaStream<u32> = MediaStream::new(container()).unwrap();
    let mut buffer = TripleBuffer::new();
    let picture = vec![0x5Au8; av_pipeline::format::SIZE];
    let output: Vec<i32> = (0..AUDIO_SAMPLES_PER_FRAME as i32).collect();

    let mut action = media.get_next_triple_buffer(Event::Start, &mut buffer);
    let mut units = vec![AUDIO, VIDEO];
    let mut decoded = 0;
    loop {
        action = match action {
            Action::ReadUnit => {
                let packet = Packet { stream_index: units.pop().unwrap(), keyframe: true };
                decoded = 1;
                media.get_next_triple_buffer(Event::Unit { status: 0, packet }, &mut buffer)
            }
            Action::Send(_) => media.get_next_triple_buffer(Event::Sent { status: 0 }, &mut buffer),
            Action::Receive(_) => {
                let status = if decoded > 0 { 0 } else { AGAIN };
                decoded = 0;
                media.get_next_triple_buffer(Event::Received { status, frame: 5 }, &mut buffer)
            }
            Action::Scale(_) => {
                let next = media.get_next_triple_buffer(Event::Scaled { status: 0, data: &picture }, &mut buffer);
                // Written, not published: the reader sees nothing of it.
                assert!(!buffer.novel_to_read());
                next
            }
            Action::Resample(_) => media.get_next_triple_buffer(
                Event::Resampled { status: (AUDIO_SAMPLES_PER_FRAME / 2) as i32, output: &output },
                &mut buffer,
            ),
            Action::Done(result) => {
                assert_eq!(result, Ok(Fill::Filled));
                break;
            }
        }
    }
    assert!(buffer.novel_to_read());
    buffer.about_to_read();
    assert!(buffer.read().video_frame().iter().all(|byte| *byte == 0x5A));
    assert_eq!(buffer.read().audio_frame(), &output[..]);
}
