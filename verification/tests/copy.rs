use av_pipeline::copy::{copy_slice, partial_copy_from_slice, PartialCopyFromSliceResult};

#[test]
fn copy_slice_copies_all() {
    let mut dst = [0u8; 4];
    copy_slice(&mut dst, &[1, 2, 3, 4]);
    assert_eq!(dst, [1, 2, 3, 4]);
    let mut none: [i32; 0] = [];
    copy_slice(&mut none, &[]);
}

#[test]
fn partial_copy_of_equal_lengths_is_perfect() {
    let mut dst = [0i32; 3];
    let rest = partial_copy_from_slice(&mut dst, &[7, 8, 9]);
    assert!(matches!(rest, PartialCopyFromSliceResult::Perfect));
    assert_eq!(dst, [7, 8, 9]);
}

#[test]
fn partial_copy_into_longer_destination_leaves_its_tail() {
    let mut dst = [1i32, 2, 3, 4, 5];
    match partial_copy_from_slice(&mut dst, &[7, 8]) {
        PartialCopyFromSliceResult::ExtraDst(later) => {
            assert_eq!(later, &mut [3, 4, 5]);
            later[0] = 30;
        }
        _ => panic!("the destination was longer"),
    }
    assert_eq!(dst, [7, 8, 30, 4, 5]);
}

#[test]
fn partial_copy_from_longer_source_leaves_its_tail() {
    let mut dst = [0u8; 2];
    let src = [7u8, 8, 9, 10];
    match partial_copy_from_slice(&mut dst, &src) {
        PartialCopyFromSliceResult::ExtraSrc(later) => assert_eq!(later, &[9, 10]),
        _ => panic!("the source was longer"),
    }
    assert_eq!(dst, [7, 8]);
}

#[test]
fn partial_copy_with_an_empty_side() {
    let mut dst: [u8; 0] = [];
    match partial_copy_from_slice(&mut dst, &[1, 2]) {
        PartialCopyFromSliceResult::ExtraSrc(later) => assert_eq!(later, &[1, 2]),
        _ => panic!("the source was longer"),
    }
    let mut dst = [5u8, 6];
    match partial_copy_from_slice(&mut dst, &[]) {
        PartialCopyFromSliceResult::ExtraDst(later) => assert_eq!(later, &mut [5, 6]),
        _ => panic!("the destination was longer"),
    }
}
