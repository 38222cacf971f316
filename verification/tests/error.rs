use av_pipeline::error::{
    catch_error, Error, AVERROR_BSF_NOT_FOUND, AVERROR_BUG, AVERROR_EOF, AVERROR_EXPERIMENTAL,
    AVERROR_HTTP_NOT_FOUND, AVERROR_INVALIDDATA, AVERROR_STREAM_NOT_FOUND, FFERRTAG, MKTAG,
};

#[test]
fn mktag_is_little_endian() {
    assert_eq!(MKTAG(1, 2, 3, 4), 0x0403_0201);
    assert_eq!(MKTAG(b'E', b'O', b'F', b' '), 0x2046_4F45);
    assert_eq!(MKTAG(0, 0, 0, 0), 0);
    assert_eq!(MKTAG(255, 255, 255, 255), u32::MAX);
}

#[test]
fn fferrtag_negates_the_tag() {
    assert_eq!(FFERRTAG(b'E', b'O', b'F', b' ').raw, -541_478_725);
    assert_eq!(FFERRTAG(b'E', b'O', b'F', b' ').raw, AVERROR_EOF);
    assert_eq!(FFERRTAG(0xF8, b'S', b'T', b'R').raw, AVERROR_STREAM_NOT_FOUND);
    assert_eq!(FFERRTAG(0xF8, b'B', b'S', b'F').raw, AVERROR_BSF_NOT_FOUND);
    assert_eq!(FFERRTAG(b'B', b'U', b'G', b'!').raw, AVERROR_BUG);
    assert_eq!(FFERRTAG(b'I', b'N', b'D', b'A').raw, AVERROR_INVALIDDATA);
    assert_eq!(FFERRTAG(0xF8, b'4', b'0', b'4').raw, AVERROR_HTTP_NOT_FOUND);
    assert_eq!(FFERRTAG(0, 0, 0, 0).raw, 0);
    // A tag above the signed range wraps before it is negated.
    assert_eq!(FFERRTAG(255, 255, 255, 255).raw, 1);
    assert_eq!(FFERRTAG(1, 0, 0, 0x80).raw, i32::MAX);
    assert_eq!(AVERROR_EXPERIMENTAL, -0x2bb2afa8);
}

#[test]
fn catch_error_splits_at_zero() {
    assert_eq!(catch_error(0), Ok(0));
    assert_eq!(catch_error(17), Ok(17));
    assert_eq!(catch_error(i32::MAX), Ok(i32::MAX));
    assert_eq!(catch_error(-1), Err(Error { raw: -1 }));
    assert_eq!(catch_error(AVERROR_EOF), Err(Error { raw: AVERROR_EOF }));
    assert_eq!(catch_error(i32::MIN), Err(Error { raw: i32::MIN }));
}

#[test]
fn posix_errors_are_negated_numbers() {
    assert_eq!(Error::posix(11).raw, -11);
    assert_eq!(Error::posix(35), Error::new(-35));
    assert_eq!(Error::new(AVERROR_EOF).raw, -541_478_725);
}
