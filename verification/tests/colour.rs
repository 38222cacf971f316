use av_pipeline::colour::{fill_colour, parse_colour, write_frame, Rgb};
use av_pipeline::triple_buffer::TripleBuffer;

#[test]
fn colours_are_three_pairs_of_hex_digits() {
    assert_eq!(parse_colour("#abcdef"), Some(Rgb { r: 0xab, g: 0xcd, b: 0xef }));
    assert_eq!(parse_colour("#ABCDEF"), Some(Rgb { r: 0xab, g: 0xcd, b: 0xef }));
    assert_eq!(parse_colour("#000000"), Some(Rgb { r: 0, g: 0, b: 0 }));
    assert_eq!(parse_colour("#ffffff"), Some(Rgb { r: 255, g: 255, b: 255 }));
    assert_eq!(parse_colour("#0190aF"), Some(Rgb { r: 1, g: 0x90, b: 0xaf }));
    // What follows the six digits is ignored, and so is the first byte.
    assert_eq!(parse_colour("#10203040"), Some(Rgb { r: 0x10, g: 0x20, b: 0x30 }));
    assert_eq!(parse_colour("x102030"), Some(Rgb { r: 0x10, g: 0x20, b: 0x30 }));
    // A plus sign may stand for the first digit of a channel.
    assert_eq!(parse_colour("#+f+0+a"), Some(Rgb { r: 15, g: 0, b: 10 }));
}

#[test]
fn other_texts_name_no_colour() {
    for text in ["", "#", "#abcde", "#abcdeg", "#ab-def", "#a+cdef", "# bcdef", "#abcd\u{e9}", "#-1-1-1", "#++++++", "#0x0x0x"] {
        assert_eq!(parse_colour(text), None, "{:?}", text);
    }
}

#[test]
fn fill_paints_blue_green_red_and_opaque() {
    let mut plane = [7u8; 10];
    fill_colour(&mut plane, Rgb { r: 1, g: 2, b: 3 });
    assert_eq!(plane, [3, 2, 1, 255, 3, 2, 1, 255, 7, 7]);
    let mut none: [u8; 3] = [9; 3];
    fill_colour(&mut none, Rgb { r: 1, g: 2, b: 3 });
    assert_eq!(none, [9; 3]);
}

#[test]
fn write_frame_publishes_a_frame_of_one_colour() {
    let mut buffer = TripleBuffer::new();
    assert!(write_frame(&mut buffer, "#abcdef"));
    assert!(buffer.novel_to_read());
    buffer.about_to_read();
    let video = buffer.read().video_frame();
    assert!(video.chunks(4).all(|pixel| pixel == [0xef, 0xcd, 0xab, 255]));
    assert!(buffer.read().audio_frame().iter().all(|sample| *sample == 0));
}

#[test]
fn write_frame_with_a_bad_colour_writes_nothing() {
    let mut buffer = TripleBuffer::new();
    assert!(!write_frame(&mut buffer, "#nothex"));
    assert!(!buffer.novel_to_read());
    assert!(!buffer.is_ready());
    assert!(write_frame(&mut buffer, "#010203"));
    assert!(!write_frame(&mut buffer, "red"));
    buffer.about_to_read();
    assert_eq!(buffer.read().video_frame()[..4], [3, 2, 1, 255]);
    assert!(!buffer.novel_to_read());
}
