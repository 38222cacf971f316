//! Attaching to a named shared region: how the answer of the operating
//! system is read, and where the slots and the control word lie in the
//! region.

use crate::format::{
    lemma_fixed_format, AUDIO_SAMPLES_PER_FRAME, BYTES_PER_SAMPLE, CONTROL_WORD_SIZE, REGION_SIZE,
    SIZE, SLOT_COUNT, SLOT_SIZE,
};
use vstd::prelude::*;
use vstd::string::StringExecFns;

verus! {

/// The error number for "no such object".
pub const ENOENT: i32 = 2;

/// The error number for "operation not permitted".
pub const EPERM: i32 = 1;

/// The error number for "permission denied".
pub const EACCES: i32 = 13;

/// Why a region could not be attached.
#[derive(Clone, Copy, Debug, PartialEq, Eq, Structural)]
pub enum OpenError {
    /// No region of that name exists.
    NotFound,
    /// The process may not open the region for reading and writing.
    PermissionDenied,
    /// The region does not have the expected size.
    SizeMismatch,
    /// The operating system failed in another way, with this error number.
    Other(i32),
}

/// What the operating system said when the named region was opened.
#[derive(Clone, Copy, Debug, PartialEq, Eq, Structural)]
pub enum Probe {
    /// It could not be opened, with this error number.
    Failed { errno: i32 },
    /// It exists and has this many bytes.
    Found { size: u64 },
}

/// The error that an error number stands for.
pub open spec fn spec_open_error(errno: i32) -> OpenError {
    if errno == ENOENT {
        OpenError::NotFound
    } else if errno == EACCES || errno == EPERM {
        OpenError::PermissionDenied
    } else {
        OpenError::Other(errno)
    }
}

/// Whether a region can be attached: it exists and has exactly the
/// expected size.
pub open spec fn spec_check(expected: usize, probe: Probe) -> Result<(), OpenError> {
    match probe {
        Probe::Failed { errno } => Err(spec_open_error(errno)),
        Probe::Found { size } => if size == expected {
            Ok(())
        } else {
            Err(OpenError::SizeMismatch)
        },
    }
}

/// An attachment to a shared region that exists: its name and its size.
/// The region is neither created nor destroyed through it.
#[derive(Debug)]
pub struct IpcUnmanagedObject {
    name: String,
    size: usize,
}

/// The name and the size of an attachment.
pub struct IpcUnmanagedObjectView {
    pub name: Seq<char>,
    pub size: usize,
}

impl View for IpcUnmanagedObject {
    type V = IpcUnmanagedObjectView;

    closed spec fn view(&self) -> IpcUnmanagedObjectView {
        IpcUnmanagedObjectView { name: self.name@, size: self.size }
    }
}

/// The part of a region that holds something: `start` is its first byte,
/// `end` the byte after its last.
#[derive(Clone, Copy, Debug, PartialEq, Eq, Structural)]
pub struct Span {
    pub start: usize,
    pub end: usize,
}

impl Span {
    /// Whether two spans share no byte.
    pub open spec fn disjoint(self, other: Span) -> bool {
        self.end <= other.start || other.end <= self.start
    }

    /// Whether the span lies in a region of `size` bytes.
    pub open spec fn within(self, size: int) -> bool {
        self.start <= self.end <= size
    }
}

/// Where the video plane of a slot lies.
pub open spec fn spec_video_span(slot: int) -> Span {
    Span { start: (slot * SLOT_SIZE) as usize, end: (slot * SLOT_SIZE + SIZE) as usize }
}

/// Where the audio plane of a slot lies: behind its video plane.
pub open spec fn spec_audio_span(slot: int) -> Span {
    Span { start: (slot * SLOT_SIZE + SIZE) as usize, end: ((slot + 1) * SLOT_SIZE) as usize }
}

/// Where the control word lies: behind the last slot.
pub open spec fn spec_control_span() -> Span {
    Span { start: (SLOT_COUNT * SLOT_SIZE) as usize, end: REGION_SIZE }
}

/// Where the video plane of `slot` lies in a region.
pub fn video_span(slot: u8) -> (span: Span)
    requires
        slot < SLOT_COUNT,
    ensures
        span == spec_video_span(slot as int),
        span.end - span.start == SIZE,
{
    proof {
        lemma_fixed_format();
    }
    let start: usize = slot as usize * SLOT_SIZE;
    Span { start, end: start + SIZE }
}

/// Where the audio plane of `slot` lies in a region.
pub fn audio_span(slot: u8) -> (span: Span)
    requires
        slot < SLOT_COUNT,
    ensures
        span == spec_audio_span(slot as int),
        span.end - span.start == AUDIO_SAMPLES_PER_FRAME * BYTES_PER_SAMPLE,
{
    proof {
        lemma_fixed_format();
    }
    let start: usize = slot as usize * SLOT_SIZE + SIZE;
    Span { start, end: start + AUDIO_SAMPLES_PER_FRAME * BYTES_PER_SAMPLE }
}

/// Where the control word lies in a region.
pub fn control_span() -> (span: Span)
    ensures
        span == spec_control_span(),
        span.end - span.start == CONTROL_WORD_SIZE,
{
    Span { start: SLOT_COUNT * SLOT_SIZE, end: REGION_SIZE }
}

impl IpcUnmanagedObject {
    /// Reads the answer of the operating system to opening the region
    /// `name`, which must have `expected` bytes. Gives the attachment
    /// exactly when the region exists and has that size; fails with
    /// `NotFound` when no such region exists, with `PermissionDenied` when
    /// the process may not open it, with `SizeMismatch` when it has another
    /// size, and with `Other` on any other error number.
    pub fn new(name: &str, expected: usize, probe: Probe) -> (result: Result<
        IpcUnmanagedObject,
        OpenError,
    >)
        ensures
            match spec_check(expected, probe) {
                Ok(_) => result matches Ok(object) && object@ == (IpcUnmanagedObjectView {
                    name: name@,
                    size: expected,
                }),
                Err(error) => result matches Err(e) && e == error,
            },
    {
        match probe {
            Probe::Failed { errno } => {
                if errno == ENOENT {
                    Err(OpenError::NotFound)
                } else if errno == EACCES || errno == EPERM {
                    Err(OpenError::PermissionDenied)
                } else {
                    Err(OpenError::Other(errno))
                }
            },
            Probe::Found { size } => {
                if size == expected as u64 {
                    Ok(IpcUnmanagedObject { name: String::from_str(name), size: expected })
                } else {
                    Err(OpenError::SizeMismatch)
                }
            },
        }
    }

    /// The name of the region.
    pub fn name(&self) -> (name: &str)
        ensures
            name@ == self@.name,
    {
        self.name.as_str()
    }

    /// The size of the region in bytes.
    pub fn size(&self) -> (size: usize)
        ensures
            size == self@.size,
    {
        self.size
    }
}

/// The planes of the three slots and the control word lie in the region,
/// no two of them share a byte, and together they fill it.
pub proof fn lemma_layout(a: int, b: int)
    requires
        0 <= a < 3,
        0 <= b < 3,
    ensures
        spec_video_span(a).within(REGION_SIZE as int),
        spec_audio_span(a).within(REGION_SIZE as int),
        spec_control_span().within(REGION_SIZE as int),
        spec_video_span(a).disjoint(spec_audio_span(b)),
        spec_video_span(a).disjoint(spec_control_span()),
        spec_audio_span(a).disjoint(spec_control_span()),
        a != b ==> spec_video_span(a).disjoint(spec_video_span(b)),
        a != b ==> spec_audio_span(a).disjoint(spec_audio_span(b)),
        spec_video_span(0).start == 0,
        spec_video_span(a).end == spec_audio_span(a).start,
        a < 2 ==> spec_audio_span(a).end == spec_video_span(a + 1).start,
        spec_audio_span(2).end == spec_control_span().start,
        spec_control_span().end == REGION_SIZE,
{
    lemma_fixed_format();
}

} // verus!
