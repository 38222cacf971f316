//! Video scaling: the conversion that the pipeline asks for, and the
//! delivery of a converted picture into a video plane.

use crate::copy::copy_slice;
use crate::error::{Error, AVERROR_INVALIDDATA};
use vstd::prelude::*;

verus! {

/// A conversion from one picture geometry and pixel format to another.
#[derive(Clone, Copy, Debug, PartialEq, Eq, Structural)]
pub struct Scaler {
    pub src_width: i32,
    pub src_height: i32,
    pub src_pixel_format: i32,
    pub dst_width: i32,
    pub dst_height: i32,
    pub dst_pixel_format: i32,
}

/// What `Scaler::scale` returns for a status and a converted picture
/// offered to a plane of `room` bytes.
pub open spec fn spec_scale(status: i32, scaled: Seq<u8>, room: nat) -> Result<(), Error> {
    if status < 0 {
        Err(Error { raw: status })
    } else if scaled.len() != room {
        Err(Error { raw: AVERROR_INVALIDDATA })
    } else {
        Ok(())
    }
}

impl Scaler {
    /// The conversion between the given geometries and formats.
    pub fn new(
        src_width: i32,
        src_height: i32,
        src_pixel_format: i32,
        dst_width: i32,
        dst_height: i32,
        dst_pixel_format: i32,
    ) -> (scaler: Scaler)
        ensures
            scaler == (Scaler {
                src_width,
                src_height,
                src_pixel_format,
                dst_width,
                dst_height,
                dst_pixel_format,
            }),
    {
        Scaler { src_width, src_height, src_pixel_format, dst_width, dst_height, dst_pixel_format }
    }

    /// Delivers a converted picture into `dst`. A failure status is passed
    /// on as its error; a picture that does not have the size of the plane
    /// is refused as invalid data; in both cases `dst` is left as it was.
    /// Otherwise `dst` holds the picture.
    pub fn scale(&self, status: i32, scaled: &[u8], dst: &mut [u8]) -> (result: Result<(), Error>)
        ensures
            result == spec_scale(status, scaled@, old(dst)@.len()),
            result.is_ok() ==> final(dst)@ == scaled@,
            result.is_err() ==> final(dst)@ == old(dst)@,
    {
        if status < 0 {
            Err(Error { raw: status })
        } else if scaled.len() != dst.len() {
            Err(Error { raw: AVERROR_INVALIDDATA })
        } else {
            copy_slice(dst, scaled);
            Ok(())
        }
    }
}

} // verus!
