use av_pipeline::error::{Error, AVERROR_EOF, AVERROR_INVALIDDATA, AVERROR_STREAM_NOT_FOUND};
use av_pipeline::stream::{
    ChannelLayout, CodecParameters, Decoder, Demuxer, MediaType, Packet, Pull, Stream,
    AV_CHANNEL_LAYOUT_MASK, AV_CHANNEL_LAYOUT_STEREO, AV_CHANNEL_ORDER_NATIVE, AV_PIX_FMT_BGRA,
    AV_SAMPLE_FMT_S32,
};

const AGAIN: Error = Error { raw: -11 };

fn no_layout() -> ChannelLayout {
    ChannelLayout { order: 0, nb_channels: 0, mask: 0 }
}

fn video(width: i32, height: i32, bit_rate: i64) -> CodecParameters {
    CodecParameters {
        media_type: Some(MediaType::Video),
        width,
        height,
        format: 0,
        ch_layout: no_layout(),
        sample_rate: 0,
        bit_rate,
    }
}

fn audio(sample_rate: i32, bit_rate: i64) -> CodecParameters {
    CodecParameters {
        media_type: Some(MediaType::Audio),
        width: 0,
        height: 0,
        format: 8,
        ch_layout: AV_CHANNEL_LAYOUT_STEREO(),
        sample_rate,
        bit_rate,
    }
}

fn subtitles() -> CodecParameters {
    CodecParameters {
        media_type: None,
        width: 4000,
        height: 4000,
        format: 0,
        ch_layout: no_layout(),
        sample_rate: 0,
        bit_rate: 1_000_000_000,
    }
}

fn demuxer(params: Vec<CodecParameters>) -> Demuxer {
    Demuxer::new(&params, AGAIN).unwrap()
}

#[test]
fn best_video_of_low_720_1080_high_is_1080() {
    let container = demuxer(vec![
        audio(22_050, 64_000),
        video(1280, 720, 2_000_000),
        video(1920, 1080, 4_000_000),
        audio(48_000, 320_000),
    ]);
    let (index, stream, decoder) = container.find_best_stream(MediaType::Video).unwrap();
    assert_eq!(index, 2);
    assert_eq!(stream.stream_index(), 2);
    assert_eq!(stream.width(), 1920);
    assert_eq!(stream.height(), 1080);
    assert_eq!(decoder, Decoder { stream_index: 2, again: AGAIN });
    let (index, stream, _) = container.find_best_stream(MediaType::Audio).unwrap();
    assert_eq!(index, 3);
    assert_eq!(stream.sample_rate(), 48_000);
}

#[test]
fn resolution_beats_bit_rate() {
    let container = demuxer(vec![video(640, 480, 9_000_000), video(1280, 720, 1_000)]);
    assert_eq!(container.find_best_stream(MediaType::Video).unwrap().0, 1);
}

#[test]
fn bit_rate_breaks_a_tie_of_resolution() {
    let container =
        demuxer(vec![video(1280, 720, 1_000), video(720, 1280, 3_000), video(1280, 720, 2_000)]);
    assert_eq!(container.find_best_stream(MediaType::Video).unwrap().0, 1);
}

#[test]
fn container_order_breaks_a_full_tie() {
    let container = demuxer(vec![
        subtitles(),
        audio(48_000, 128_000),
        audio(44_100, 128_000),
        audio(48_000, 128_000),
    ]);
    assert_eq!(container.find_best_stream(MediaType::Audio).unwrap().0, 1);
}

#[test]
fn pictures_without_area_count_as_empty() {
    let container = demuxer(vec![video(-5, -5, 0), video(0, 100, 0), video(1, 1, 0)]);
    assert_eq!(container.find_best_stream(MediaType::Video).unwrap().0, 2);
    let container = demuxer(vec![video(-5, -5, 10), video(0, 100, 20), video(-1, 0, 20)]);
    assert_eq!(container.find_best_stream(MediaType::Video).unwrap().0, 1);
}

#[test]
fn large_pictures_do_not_overflow() {
    let container = demuxer(vec![video(i32::MAX, i32::MAX - 1, 0), video(i32::MAX, i32::MAX, 0)]);
    assert_eq!(container.find_best_stream(MediaType::Video).unwrap().0, 1);
}

#[test]
fn missing_kind_is_stream_not_found() {
    let container = demuxer(vec![audio(48_000, 1), subtitles()]);
    assert_eq!(
        container.find_best_stream(MediaType::Video).err(),
        Some(Error { raw: AVERROR_STREAM_NOT_FOUND })
    );
    let empty = demuxer(vec![]);
    assert_eq!(
        empty.find_best_stream(MediaType::Audio).err(),
        Some(Error { raw: AVERROR_STREAM_NOT_FOUND })
    );
    assert_eq!(empty.stream_count(), 0);
}

#[test]
fn demuxer_needs_a_failure_status_for_nothing_yet() {
    assert!(Demuxer::new(&vec![], Error { raw: 0 }).is_none());
    assert!(Demuxer::new(&vec![], Error { raw: 11 }).is_none());
    assert!(Demuxer::new(&vec![], Error { raw: AVERROR_EOF }).is_none());
    assert!(Demuxer::new(&vec![], Error { raw: -35 }).is_some());
}

#[test]
fn streams_know_their_position_and_parameters() {
    let container = demuxer(vec![audio(22_050, 64_000), video(1280, 720, 2_000_000)]);
    assert_eq!(container.stream_count(), 2);
    let first: Stream = container.stream(0).unwrap();
    assert_eq!(first.stream_index(), 0);
    assert_eq!(first.sample_rate(), 22_050);
    assert_eq!(first.sample_format(), 8);
    assert_eq!(first.channel_layout(), AV_CHANNEL_LAYOUT_STEREO());
    assert_eq!(*first.codec_params(), audio(22_050, 64_000));
    let second = container.stream(1).unwrap();
    assert_eq!(second.stream_index(), 1);
    assert_eq!(second.pixel_format(), 0);
    assert_eq!(second.width(), 1280);
    assert_eq!(second.height(), 720);
    assert_eq!(container.stream(2), None);
    assert_eq!(container.stream(-1), None);
}

#[test]
fn channel_layouts() {
    assert_eq!(
        AV_CHANNEL_LAYOUT_MASK(6, 0x3f),
        ChannelLayout { order: AV_CHANNEL_ORDER_NATIVE, nb_channels: 6, mask: 0x3f }
    );
    assert_eq!(AV_CHANNEL_LAYOUT_STEREO(), ChannelLayout { order: 1, nb_channels: 2, mask: 3 });
    assert_eq!(AV_PIX_FMT_BGRA, 28);
    assert_eq!(AV_SAMPLE_FMT_S32, 2);
}

#[test]
fn reading_a_unit_tells_data_end_and_nothing_yet_apart() {
    let container = demuxer(vec![video(1, 1, 1)]);
    let packet = Packet { stream_index: 0, keyframe: true };
    assert_eq!(packet.stream_index(), 0);
    assert_eq!(container.read(0, packet), Ok(Pull::Unit(packet)));
    assert_eq!(container.read(5, packet), Ok(Pull::Unit(packet)));
    assert_eq!(container.read(AVERROR_EOF, packet), Ok(Pull::End));
    assert_eq!(container.read(-11, packet), Ok(Pull::NoData));
    assert_eq!(
        container.read(AVERROR_INVALIDDATA, packet),
        Err(Error { raw: AVERROR_INVALIDDATA })
    );
    assert_eq!(container.read(-35, packet), Err(Error { raw: -35 }));
}

#[test]
fn decoder_statuses() {
    let decoder = Decoder { stream_index: 0, again: AGAIN };
    assert_eq!(decoder.send(0), Ok(()));
    assert_eq!(decoder.send(-11), Err(AGAIN));
    assert_eq!(decoder.send(AVERROR_INVALIDDATA), Err(Error { raw: AVERROR_INVALIDDATA }));
    assert_eq!(decoder.receive(0, 'f'), Ok(Some('f')));
    assert_eq!(decoder.receive(-11, 'f'), Ok(None));
    assert_eq!(decoder.receive(AVERROR_EOF, 'f'), Ok(None));
    assert_eq!(decoder.receive(AVERROR_INVALIDDATA, 'f'), Err(Error { raw: AVERROR_INVALIDDATA }));
}
