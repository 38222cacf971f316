//! Live ingest: the bytes that have arrived from the network and were not
//! read yet, and how the statuses of the transport are read.

use collect_slice::CollectSlice;
use std::collections::VecDeque;
use vstd::prelude::*;

verus! {

/// The status by which the transport reports a failure.
pub const SRT_ERROR: i32 = -1;

/// The transport's error number for "no data available yet".
pub const SRT_EASYNCRCV: i32 = 6002;

/// The number of bytes that must have arrived before a connection counts
/// as established.
pub const PREBUFFER: usize = 100_000;

/// Why the live source failed.
#[derive(Clone, Copy, Debug, PartialEq, Eq, Structural)]
pub enum SrtError {
    /// The peer closed the connection.
    Closed,
    /// The transport claims more bytes than the receive buffer holds.
    Overrun,
    /// The transport failed, with this error number of its own.
    Failed(i32),
}

/// What one read from the live source gave.
#[derive(Clone, Copy, Debug, PartialEq, Eq, Structural)]
pub enum SrtRead {
    /// This many bytes were copied to the front of the buffer.
    Bytes(usize),
    /// Nothing has arrived; more may arrive later.
    NoData,
}

/// What the answer of the transport to one receive means: the bytes that
/// arrived (none if there is no data yet), or the failure.
pub open spec fn spec_received(status: i32, errno: i32, data: Seq<u8>) -> Result<
    Seq<u8>,
    SrtError,
> {
    if status == SRT_ERROR {
        if errno == SRT_EASYNCRCV {
            Ok(Seq::<u8>::empty())
        } else {
            Err(SrtError::Failed(errno))
        }
    } else if status == 0 {
        Err(SrtError::Closed)
    } else if status < 0 || status > data.len() {
        Err(SrtError::Overrun)
    } else {
        Ok(data.take(status as int))
    }
}

/// What a status of the transport other than a receive means: a failure
/// with its error number, or success.
pub open spec fn spec_status(status: i32, errno: i32) -> Result<(), SrtError> {
    if status == SRT_ERROR {
        Err(SrtError::Failed(errno))
    } else {
        Ok(())
    }
}

/// `collect_slice::CollectSlice::collect_slice_exhaust` on the bytes of
/// `items`, in order: they are written to the front of `buf`, the rest of
/// `buf` stays, and their number is returned. The call panics when `items`
/// holds more than `buf` has room for, which `requires` leaves out.
#[verifier::external_body]
fn collect_into(items: VecDeque<u8>, buf: &mut [u8]) -> (count: usize)
    requires
        items@.len() <= old(buf)@.len(),
    ensures
        count == items@.len(),
        final(buf)@ == items@ + old(buf)@.skip(items@.len() as int),
{
    items.into_iter().collect_slice_exhaust(buf)
}

/// The receiving end of a live source: the bytes that have arrived and
/// were not read yet, oldest first.
#[derive(Debug)]
pub struct SrtSocket {
    queue: VecDeque<u8>,
}

impl View for SrtSocket {
    type V = Seq<u8>;

    closed spec fn view(&self) -> Seq<u8> {
        self.queue@
    }
}

impl SrtSocket {
    /// The receiving end of a socket that was just created, given the
    /// status of making it non-blocking and the transport's error number.
    pub fn new(status: i32, errno: i32) -> (result: Result<SrtSocket, SrtError>)
        ensures
            match spec_status(status, errno) {
                Ok(_) => result matches Ok(socket) && socket@ == Seq::<u8>::empty(),
                Err(error) => result matches Err(e) && e == error,
            },
    {
        if status == SRT_ERROR {
            Err(SrtError::Failed(errno))
        } else {
            Ok(SrtSocket { queue: VecDeque::new() })
        }
    }

    /// Reads the status of connecting.
    pub fn connect(&self, status: i32, errno: i32) -> (result: Result<(), SrtError>)
        ensures
            result == spec_status(status, errno),
    {
        if status == SRT_ERROR {
            Err(SrtError::Failed(errno))
        } else {
            Ok(())
        }
    }

    /// The number of bytes that have arrived and were not read yet.
    pub fn available(&self) -> (count: usize)
        ensures
            count == self@.len(),
    {
        self.queue.len()
    }

    /// Whether enough has arrived for the connection to count as
    /// established.
    pub fn is_prebuffered(&self) -> (enough: bool)
        ensures
            enough == (self@.len() >= PREBUFFER),
    {
        self.queue.len() >= PREBUFFER
    }

    /// Takes in the answer of the transport to one receive: `status` is the
    /// number of bytes that it wrote to `data`, zero when the peer has
    /// closed, or `SRT_ERROR`, with `errno` the transport's error number.
    /// The bytes go behind those that wait; "no data yet" is no failure
    /// and adds nothing; on a failure the bytes that wait stay as they are.
    pub fn recv_into_queue(&mut self, status: i32, errno: i32, data: &[u8]) -> (result: Result<
        (),
        SrtError,
    >)
        ensures
            match spec_received(status, errno, data@) {
                Ok(bytes) => result.is_ok() && final(self)@ == old(self)@ + bytes,
                Err(error) => result == Err::<(), SrtError>(error) && final(self)@ == old(self)@,
            },
    {
        if status == SRT_ERROR {
            if errno == SRT_EASYNCRCV {
                assert(self@ + Seq::<u8>::empty() =~= self@);
                return Ok(());
            } else {
                return Err(SrtError::Failed(errno));
            }
        }
        if status == 0 {
            return Err(SrtError::Closed);
        }
        if status < 0 || status as u64 > data.len() as u64 {
            return Err(SrtError::Overrun);
        }
        let size: usize = status as usize;
        let mut i: usize = 0;
        while i < size
            invariant
                i <= size <= data@.len(),
                self.queue@ == old(self).queue@ + data@.take(i as int),
            decreases size - i,
        {
            self.queue.push_back(data[i]);
            assert(data@.take(i as int).push(data@[i as int]) =~= data@.take(i as int + 1));
            assert(self.queue@ =~= old(self).queue@ + data@.take(i as int + 1));
            i += 1;
        }
        Ok(())
    }

    /// Moves as many of the waiting bytes to the front of `buf` as both
    /// hold, oldest first, and says how many; says `NoData`, and changes
    /// nothing, when none wait.
    pub fn read(&mut self, buf: &mut [u8]) -> (result: SrtRead)
        ensures
            old(self)@.len() == 0 ==> result == SrtRead::NoData && final(self)@ == old(self)@
                && final(buf)@ == old(buf)@,
            old(self)@.len() > 0 ==> ({
                let count = if old(self)@.len() <= old(buf)@.len() {
                    old(self)@.len() as int
                } else {
                    old(buf)@.len() as int
                };
                &&& result == SrtRead::Bytes(count as usize)
                &&& final(buf)@ == old(self)@.take(count) + old(buf)@.skip(count)
                &&& final(self)@ == old(self)@.skip(count)
            }),
    {
        if self.queue.len() == 0 {
            return SrtRead::NoData;
        }
        let bytes_read: usize = if self.queue.len() <= buf.len() {
            self.queue.len()
        } else {
            buf.len()
        };
        let mut head: VecDeque<u8> = self.queue.split_off(bytes_read);
        std::mem::swap(&mut self.queue, &mut head);
        assert(head@ =~= old(self)@.take(bytes_read as int));
        assert(self.queue@ =~= old(self)@.skip(bytes_read as int));
        let count: usize = collect_into(head, buf);
        SrtRead::Bytes(count)
    }
}

} // verus!
