//! Audio resampling: the conversion that the pipeline asks for, and the
//! carry-over of converted samples from one frame to the next.

use crate::copy::copy_slice;
use crate::error::{Error, AVERROR_BUG};
use crate::stream::ChannelLayout;
use vstd::prelude::*;

verus! {

/// The status of an invalid argument.
pub const AVERROR_EINVAL: i32 = -22;

/// A conversion from one audio format to another, with the converted
/// samples that no frame has taken yet.
pub struct Resampler {
    src_channel_layout: ChannelLayout,
    src_sample_format: i32,
    src_sample_rate: i32,
    dst_channel_layout: ChannelLayout,
    dst_sample_format: i32,
    dst_sample_rate: i32,
    carry: Vec<i32>,
}

/// The abstract state of a resampler.
pub struct ResamplerView {
    pub src_channel_layout: ChannelLayout,
    pub src_sample_format: i32,
    pub src_sample_rate: i32,
    pub dst_channel_layout: ChannelLayout,
    pub dst_sample_format: i32,
    pub dst_sample_rate: i32,
    /// The converted samples that no frame has taken yet, oldest first.
    pub carry: Seq<i32>,
}

impl View for Resampler {
    type V = ResamplerView;

    closed spec fn view(&self) -> ResamplerView {
        ResamplerView {
            src_channel_layout: self.src_channel_layout,
            src_sample_format: self.src_sample_format,
            src_sample_rate: self.src_sample_rate,
            dst_channel_layout: self.dst_channel_layout,
            dst_sample_format: self.dst_sample_format,
            dst_sample_rate: self.dst_sample_rate,
            carry: self.carry@,
        }
    }
}

/// Whether a conversion between these formats can be set up: both rates
/// and both channel counts are positive.
pub open spec fn spec_convertible(
    src_channel_layout: ChannelLayout,
    src_sample_rate: i32,
    dst_channel_layout: ChannelLayout,
    dst_sample_rate: i32,
) -> bool {
    &&& src_channel_layout.nb_channels > 0
    &&& src_sample_rate > 0
    &&& dst_channel_layout.nb_channels > 0
    &&& dst_sample_rate > 0
}

/// What the engine's answer to one conversion gives: the error of a failure
/// status, a bug when it claims more samples than `output` holds, else the
/// first `status` samples of every channel.
pub open spec fn spec_converted(status: i32, channels: int, output: Seq<i32>) -> Result<
    Seq<i32>,
    Error,
> {
    if status < 0 {
        Err(Error { raw: status })
    } else if status * channels > output.len() {
        Err(Error { raw: AVERROR_BUG })
    } else {
        Ok(output.take(status * channels))
    }
}

impl ResamplerView {
    /// The conversion can be set up.
    pub open spec fn wf(self) -> bool {
        spec_convertible(
            self.src_channel_layout,
            self.src_sample_rate,
            self.dst_channel_layout,
            self.dst_sample_rate,
        )
    }

    /// The state with `samples` behind the carry.
    pub open spec fn push(self, samples: Seq<i32>) -> ResamplerView {
        ResamplerView { carry: self.carry + samples, ..self }
    }

    /// The state without the first `count` samples of the carry.
    pub open spec fn pop(self, count: int) -> ResamplerView {
        ResamplerView { carry: self.carry.skip(count), ..self }
    }
}

impl Resampler {
    /// The invariant of the resampler.
    pub open spec fn wf(&self) -> bool {
        self@.wf()
    }

    /// The conversion between the given formats, with nothing carried
    /// over. Fails with `AVERROR_EINVAL` exactly when a rate or a channel
    /// count is not positive.
    pub fn new(
        src_channel_layout: ChannelLayout,
        src_sample_format: i32,
        src_sample_rate: i32,
        dst_channel_layout: ChannelLayout,
        dst_sample_format: i32,
        dst_sample_rate: i32,
    ) -> (result: Result<Resampler, Error>)
        ensures
            result.is_ok() <==> spec_convertible(
                src_channel_layout,
                src_sample_rate,
                dst_channel_layout,
                dst_sample_rate,
            ),
            result matches Err(e) ==> e.raw == AVERROR_EINVAL,
            result matches Ok(r) ==> r.wf() && r@ == (ResamplerView {
                src_channel_layout,
                src_sample_format,
                src_sample_rate,
                dst_channel_layout,
                dst_sample_format,
                dst_sample_rate,
                carry: Seq::<i32>::empty(),
            }),
    {
        if src_channel_layout.nb_channels <= 0 || src_sample_rate <= 0
            || dst_channel_layout.nb_channels <= 0 || dst_sample_rate <= 0 {
            return Err(Error { raw: AVERROR_EINVAL });
        }
        Ok(
            Resampler {
                src_channel_layout,
                src_sample_format,
                src_sample_rate,
                dst_channel_layout,
                dst_sample_format,
                dst_sample_rate,
                carry: Vec::new(),
            },
        )
    }

    /// The number of samples carried over.
    pub fn pending(&self) -> (count: usize)
        ensures
            count == self@.carry.len(),
    {
        self.carry.len()
    }

    /// Takes in the engine's answer to one conversion: `status` is its
    /// failure status or the number of samples that it wrote for every
    /// channel, `output` the buffer that it wrote to. The samples go behind
    /// the carry; on an error the carry is left as it was.
    pub fn convert(&mut self, status: i32, output: &[i32]) -> (result: Result<(), Error>)
        requires
            old(self).wf(),
        ensures
            final(self).wf(),
            match spec_converted(
                status,
                old(self)@.dst_channel_layout.nb_channels as int,
                output@,
            ) {
                Ok(samples) => result.is_ok() && final(self)@ == old(self)@.push(samples),
                Err(e) => result == Err::<(), Error>(e) && final(self)@ == old(self)@,
            },
    {
        if status < 0 {
            return Err(Error { raw: status });
        }
        let channels: i32 = self.dst_channel_layout.nb_channels;
        assert(0 <= status * channels <= 0x7fff_ffff * 0x7fff_ffff) by (nonlinear_arith)
            requires
                0 <= status <= 0x7fff_ffff,
                0 < channels <= 0x7fff_ffff,
        ;
        let count: u64 = status as u64 * channels as u64;
        if count > output.len() as u64 {
            return Err(Error { raw: AVERROR_BUG });
        }
        let count: usize = count as usize;
        let samples: &[i32] = slice_prefix(output, count);
        self.carry.extend_from_slice(samples);
        assert(self.carry@ =~= old(self)@.carry + output@.take(status * channels));
        Ok(())
    }

    /// Fills `dst` from the front of the carry if the carry holds enough;
    /// otherwise leaves `dst` and the carry as they were.
    pub fn fill(&mut self, dst: &mut [i32]) -> (filled: bool)
        requires
            old(self).wf(),
        ensures
            final(self).wf(),
            filled == (old(self)@.carry.len() >= old(dst)@.len()),
            filled ==> final(dst)@ == old(self)@.carry.take(old(dst)@.len() as int) && final(self)@
                == old(self)@.pop(old(dst)@.len() as int),
            !filled ==> final(dst)@ == old(dst)@ && final(self)@ == old(self)@,
    {
        let wanted: usize = dst.len();
        if self.carry.len() < wanted {
            return false;
        }
        let rest: Vec<i32> = self.carry.split_off(wanted);
        copy_slice(dst, self.carry.as_slice());
        assert(self.carry@ =~= old(self)@.carry.take(wanted as int));
        self.carry = rest;
        assert(self.carry@ =~= old(self)@.carry.skip(wanted as int));
        true
    }
}

/// One use of the carry: converted samples come in, or a frame of a given
/// size asks to be filled.
pub enum CarryStep {
    Push(Seq<i32>),
    Fill(nat),
}

/// The carry after some steps, and all samples that frames have taken, in
/// the order in which they were taken.
pub struct CarryRun {
    pub carry: Seq<i32>,
    pub delivered: Seq<i32>,
}

/// All chunks one after the other.
pub open spec fn concat(chunks: Seq<Seq<i32>>) -> Seq<i32>
    decreases chunks.len(),
{
    if chunks.len() == 0 {
        Seq::<i32>::empty()
    } else {
        concat(chunks.drop_last()) + chunks.last()
    }
}

/// The state after the chunks were pushed one by one.
pub open spec fn push_all(resampler: ResamplerView, chunks: Seq<Seq<i32>>) -> ResamplerView
    decreases chunks.len(),
{
    if chunks.len() == 0 {
        resampler
    } else {
        push_all(resampler, chunks.drop_last()).push(chunks.last())
    }
}

/// The effect of one step: a push lengthens the carry; a fill takes its
/// size from the front of the carry if the carry holds that much.
pub open spec fn carry_step(run: CarryRun, step: CarryStep) -> CarryRun {
    match step {
        CarryStep::Push(samples) => CarryRun { carry: run.carry + samples, ..run },
        CarryStep::Fill(size) => if run.carry.len() >= size {
            CarryRun {
                carry: run.carry.skip(size as int),
                delivered: run.delivered + run.carry.take(size as int),
            }
        } else {
            run
        },
    }
}

/// The effect of a sequence of steps on a carry, from which nothing was
/// delivered yet.
pub open spec fn carry_run(carry: Seq<i32>, steps: Seq<CarryStep>) -> CarryRun
    decreases steps.len(),
{
    if steps.len() == 0 {
        CarryRun { carry, delivered: Seq::<i32>::empty() }
    } else {
        carry_step(carry_run(carry, steps.drop_last()), steps.last())
    }
}

/// The samples that the pushes of a sequence of steps bring, in order.
pub open spec fn pushed(steps: Seq<CarryStep>) -> Seq<i32>
    decreases steps.len(),
{
    if steps.len() == 0 {
        Seq::<i32>::empty()
    } else {
        match steps.last() {
            CarryStep::Push(samples) => pushed(steps.drop_last()) + samples,
            CarryStep::Fill(_) => pushed(steps.drop_last()),
        }
    }
}

/// Feeding converted audio in chunks of any sizes leaves the resampler in
/// the state in which feeding the same audio as one chunk leaves it.
pub proof fn lemma_chunks_equal_one_chunk(resampler: ResamplerView, chunks: Seq<Seq<i32>>)
    ensures
        push_all(resampler, chunks) == resampler.push(concat(chunks)),
    decreases chunks.len(),
{
    if chunks.len() == 0 {
        assert(resampler.carry + concat(chunks) =~= resampler.carry);
    } else {
        lemma_chunks_equal_one_chunk(resampler, chunks.drop_last());
        assert((resampler.carry + concat(chunks.drop_last())) + chunks.last() =~= resampler.carry
            + concat(chunks));
    }
}

/// However pushes and fills interleave, no sample is lost, repeated or
/// reordered: what frames have taken, followed by what is still carried,
/// is what was carried at the start followed by what was pushed.
pub proof fn lemma_nothing_lost(carry: Seq<i32>, steps: Seq<CarryStep>)
    ensures
        carry_run(carry, steps).delivered + carry_run(carry, steps).carry == carry + pushed(steps),
    decreases steps.len(),
{
    if steps.len() == 0 {
        assert(Seq::<i32>::empty() + carry =~= carry + Seq::<i32>::empty());
    } else {
        let before = carry_run(carry, steps.drop_last());
        let after = carry_run(carry, steps);
        lemma_nothing_lost(carry, steps.drop_last());
        match steps.last() {
            CarryStep::Push(samples) => {
                assert(after.delivered + after.carry =~= (before.delivered + before.carry)
                    + samples);
                assert((carry + pushed(steps.drop_last())) + samples =~= carry + pushed(steps));
            },
            CarryStep::Fill(size) => {
                if before.carry.len() >= size {
                    assert(before.carry.take(size as int) + before.carry.skip(size as int)
                        =~= before.carry);
                    assert(after.delivered + after.carry =~= before.delivered + before.carry);
                }
            },
        }
    }
}

/// The first `count` elements of a slice.
fn slice_prefix(slice: &[i32], count: usize) -> (prefix: &[i32])
    requires
        count <= slice@.len(),
    ensures
        prefix@ == slice@.take(count as int),
{
    let (prefix, _) = slice.split_at(count);
    assert(prefix@ =~= slice@.take(count as int));
    prefix
}

} // verus!
