//! Copying between slices of unequal length.

use vstd::prelude::*;

verus! {

/// What is left over after a partial copy.
pub enum PartialCopyFromSliceResult<'dst, 'src, T> {
    /// Source and destination had the same length.
    Perfect,
    /// The destination was longer: the part of it that was not written.
    ExtraDst(&'dst mut [T]),
    /// The source was longer: the part of it that was not read.
    ExtraSrc(&'src [T]),
}

/// Copies `src` over `dst`, which has the same length.
pub fn copy_slice<T: Copy>(dst: &mut [T], src: &[T])
    requires
        old(dst)@.len() == src@.len(),
    ensures
        final(dst)@ == src@,
{
    let n: usize = src.len();
    let mut i: usize = 0;
    while i < n
        invariant
            i <= n,
            n == src@.len(),
            dst@.len() == n,
            forall|k: int| 0 <= k < i ==> dst@[k] == src@[k],
        decreases n - i,
    {
        dst[i] = src[i];
        i += 1;
    }
    assert(dst@ =~= src@);
}

/// Copies as many elements from the front of `src` to the front of `dst`
/// as both have, and hands back what is left over of the longer one.
pub fn partial_copy_from_slice<'dst, 'src, T: Copy>(
    dst: &'dst mut [T],
    src: &'src [T],
) -> (rest: PartialCopyFromSliceResult<'dst, 'src, T>)
    ensures
        match rest {
            PartialCopyFromSliceResult::Perfect => {
                &&& old(dst)@.len() == src@.len()
                &&& final(dst)@ == src@
            },
            PartialCopyFromSliceResult::ExtraDst(later) => {
                &&& old(dst)@.len() > src@.len()
                &&& later@ == old(dst)@.skip(src@.len() as int)
                &&& final(dst)@ == src@ + final(later)@
            },
            PartialCopyFromSliceResult::ExtraSrc(later) => {
                &&& old(dst)@.len() < src@.len()
                &&& later@ == src@.skip(old(dst)@.len() as int)
                &&& final(dst)@ == src@.take(old(dst)@.len() as int)
            },
        },
{
    let dst_len: usize = dst.len();
    let src_len: usize = src.len();
    if dst_len == src_len {
        copy_slice(dst, src);
        PartialCopyFromSliceResult::Perfect
    } else if dst_len > src_len {
        let (dst_now, dst_later) = dst.split_at_mut(src_len);
        copy_slice(dst_now, src);
        PartialCopyFromSliceResult::ExtraDst(dst_later)
    } else {
        let (src_now, src_later) = src.split_at(dst_len);
        copy_slice(dst, src_now);
        PartialCopyFromSliceResult::ExtraSrc(src_later)
    }
}

} // verus!
