use av_pipeline::format::{
    region_size, slot_size, Buffer, AUDIO_SAMPLES_PER_FRAME, CONTROL_WORD_SIZE, FRAME_RATE, HEIGHT,
    NUM_CHANNELS, PITCH, REGION_SIZE, SAMPLE_RATE, SIZE, SLOT_SIZE, WIDTH,
};

#[test]
fn fixed_format_constants() {
    assert_eq!(WIDTH, 1920);
    assert_eq!(HEIGHT, 1080);
    assert_eq!(PITCH, 7680);
    assert_eq!(SIZE, 8_294_400);
    assert_eq!(AUDIO_SAMPLES_PER_FRAME, 3840);
    assert_eq!(SLOT_SIZE, 8_309_760);
    assert_eq!(CONTROL_WORD_SIZE, 4);
    assert_eq!(REGION_SIZE, 24_929_284);
}

#[test]
fn slot_size_follows_the_formula() {
    assert_eq!(slot_size(WIDTH, HEIGHT, SAMPLE_RATE, NUM_CHANNELS, FRAME_RATE), Some(SLOT_SIZE));
    assert_eq!(slot_size(2, 3, 10, 2, 5), Some(2 * 3 * 4 + (10 * 2 / 5) * 4));
    // The division rounds down.
    assert_eq!(slot_size(1, 1, 44_100, 2, 24), Some(4 + 3675 * 4));
    assert_eq!(slot_size(0, 0, 0, 0, 1), Some(0));
}

#[test]
fn slot_size_refuses_what_does_not_fit() {
    assert_eq!(slot_size(1, 1, 1, 1, 0), None);
    assert_eq!(slot_size(usize::MAX, 2, 1, 1, 1), None);
    assert_eq!(slot_size(usize::MAX / 4 + 1, 1, 1, 1, 1), None);
    assert_eq!(slot_size(1, 1, usize::MAX, 2, 1), None);
    assert_eq!(slot_size(usize::MAX / 4, 1, 48_000, 2, 1), None);
}

#[test]
fn region_size_is_three_slots_and_the_control_word() {
    assert_eq!(region_size(SLOT_SIZE), Some(REGION_SIZE));
    assert_eq!(region_size(0), Some(4));
    assert_eq!(region_size(10), Some(34));
    assert_eq!(region_size(usize::MAX / 3), None);
    assert_eq!(region_size(usize::MAX), None);
}

#[test]
fn new_slot_is_zero_and_planes_can_be_written() {
    let mut slot = Buffer::new();
    assert_eq!(slot.video_frame().len(), SIZE);
    assert_eq!(slot.audio_frame().len(), AUDIO_SAMPLES_PER_FRAME);
    assert!(slot.video_frame().iter().all(|byte| *byte == 0));
    slot.video_frame_mut()[5] = 7;
    slot.audio_frame_mut()[6] = -8;
    assert_eq!(slot.video_frame()[5], 7);
    assert_eq!(slot.audio_frame()[6], -8);
    let (video, audio) = slot.planes_mut();
    video[0] = 1;
    audio[0] = 2;
    assert_eq!(slot.video_frame()[0], 1);
    assert_eq!(slot.audio_frame()[0], 2);
}
