//! The sink pipeline: once per tick the newest frame is converted, encoded
//! and forwarded to the consumers that are attached.
//!
//! Converting, encoding and forwarding are done by whoever drives the
//! pipeline. The pipeline says what to do next (a [`SinkAction`]) and is
//! told what came of it (a [`SinkEvent`]); it keeps the presentation time,
//! the consumers, and which of them may be served.

use crate::error::{Error, AVERROR_EOF};
use crate::format::FRAME_RATE;
use crate::stream::Packet;
use crate::triple_buffer::TripleBuffer;
use bytes::Bytes;
use vstd::prelude::*;

verus! {

/// The shared byte buffer of the `bytes` crate.
#[verifier::external_type_specification]
#[verifier::external_body]
pub struct ExBytes(bytes::Bytes);

/// The bytes that a shared byte buffer holds, in order.
pub uninterp spec fn bytes_content(buffer: Bytes) -> Seq<u8>;

/// `bytes::Bytes::copy_from_slice`: a buffer that holds a copy of the
/// bytes of `data`, in order.
#[verifier::external_body]
fn copy_to_bytes(data: &[u8]) -> (copied: Bytes)
    ensures
        bytes_content(copied) == data@,
{
    Bytes::copy_from_slice(data)
}

/// Milliseconds between two ticks, and the presentation duration of one
/// encoded unit.
pub const TICK_MILLIS: u64 = 1000 / 25;

/// The presentation time of the first tick, in ticks.
pub const FIRST_PTS: i64 = 1;

/// One attached consumer.
#[derive(Clone, Copy, Debug, PartialEq, Eq, Structural)]
pub struct Consumer {
    /// The name by which the driver knows the consumer.
    pub id: u64,
    /// Whether a unit at which decoding can start was forwarded to the
    /// consumer since it was attached.
    pub primed: bool,
}

/// What the sink waits for.
#[derive(Clone, Copy, Debug, PartialEq, Eq, Structural)]
pub enum SinkPhase {
    /// The next tick.
    Idle,
    /// The status of converting the frame.
    Converting,
    /// The status of feeding the converted frame to the encoder.
    Encoding,
    /// The answer of the encoder that was asked for a unit.
    Receiving,
}

/// What the driver does next.
#[derive(Debug, PartialEq, Eq)]
pub enum SinkAction {
    /// Take the newest published slot without waiting, convert its video
    /// plane, stamped with `pts`, and report `SinkEvent::Converted`.
    Convert { pts: i64 },
    /// Feed the converted frame, stamped with `pts`, to the encoder and
    /// report `SinkEvent::Encoded`.
    Encode { pts: i64 },
    /// Ask the encoder for a unit and report `SinkEvent::Unit`.
    Receive,
    /// Forward `data`, the bytes of the unit just received, to these
    /// consumers, with this presentation duration; then ask the encoder for
    /// another unit and report `SinkEvent::Unit`.
    Deliver { consumers: Vec<u64>, data: Bytes, duration_millis: u64 },
    /// The tick is over: wait for the next tick and report `SinkEvent::Tick`.
    Wait,
}

/// What the driver reports.
#[derive(Clone, Copy, Debug)]
pub enum SinkEvent<'a> {
    /// The cadence timer fired.
    Tick,
    /// The status of converting.
    Converted { status: i32 },
    /// The status of feeding the encoder.
    Encoded { status: i32 },
    /// The status of asking the encoder for a unit, the unit, and its bytes.
    Unit { status: i32, packet: Packet, data: &'a [u8] },
}

/// An event with its bytes as a sequence.
pub enum SinkEventView {
    Tick,
    Converted { status: i32 },
    Encoded { status: i32 },
    Unit { status: i32, packet: Packet, data: Seq<u8> },
}

impl<'a> View for SinkEvent<'a> {
    type V = SinkEventView;

    open spec fn view(&self) -> SinkEventView {
        match *self {
            SinkEvent::Tick => SinkEventView::Tick,
            SinkEvent::Converted { status } => SinkEventView::Converted { status },
            SinkEvent::Encoded { status } => SinkEventView::Encoded { status },
            SinkEvent::Unit { status, packet, data } => SinkEventView::Unit {
                status,
                packet,
                data: data@,
            },
        }
    }
}

/// An action with its consumers and its bytes as sequences.
pub enum SinkActionView {
    Convert { pts: i64 },
    Encode { pts: i64 },
    Receive,
    Deliver { consumers: Seq<u64>, data: Seq<u8>, duration_millis: u64 },
    Wait,
}

impl View for SinkAction {
    type V = SinkActionView;

    open spec fn view(&self) -> SinkActionView {
        match *self {
            SinkAction::Convert { pts } => SinkActionView::Convert { pts },
            SinkAction::Encode { pts } => SinkActionView::Encode { pts },
            SinkAction::Receive => SinkActionView::Receive,
            SinkAction::Deliver { consumers, data, duration_millis } => SinkActionView::Deliver {
                consumers: consumers@,
                data: bytes_content(data),
                duration_millis,
            },
            SinkAction::Wait => SinkActionView::Wait,
        }
    }
}

/// The abstract state of the sink pipeline.
pub struct SinkView {
    /// The attached consumers, in the order in which they were attached.
    pub consumers: Seq<Consumer>,
    /// The presentation time of the current tick, in ticks.
    pub pts: i64,
    pub phase: SinkPhase,
    /// The status by which the encoder says that it has no unit for now.
    pub again: Error,
    /// The ticks that were skipped because converting or encoding failed.
    pub dropped: u64,
}

/// The names of the consumers to which a unit goes: those that are primed,
/// and every one if decoding can start at the unit.
pub open spec fn recipients(consumers: Seq<Consumer>, keyframe: bool) -> Seq<u64>
    decreases consumers.len(),
{
    if consumers.len() == 0 {
        Seq::<u64>::empty()
    } else {
        let earlier = recipients(consumers.drop_last(), keyframe);
        if consumers.last().primed || keyframe {
            earlier.push(consumers.last().id)
        } else {
            earlier
        }
    }
}

/// The consumers after a unit was forwarded: all primed if decoding can
/// start at the unit, else as they were.
pub open spec fn primed_by(consumers: Seq<Consumer>, keyframe: bool) -> Seq<Consumer> {
    Seq::new(
        consumers.len(),
        |i: int| Consumer { id: consumers[i].id, primed: consumers[i].primed || keyframe },
    )
}

/// Whether a consumer of this name is attached.
pub open spec fn attached(consumers: Seq<Consumer>, id: u64) -> bool {
    exists|i: int| 0 <= i < consumers.len() && (#[trigger] consumers[i]).id == id
}

/// The presentation time after `pts`; it stops at the largest value.
pub open spec fn next_pts(pts: i64) -> i64 {
    if pts < i64::MAX {
        (pts + 1) as i64
    } else {
        pts
    }
}

/// The count after `count`; it stops at the largest value.
pub open spec fn next_count(count: u64) -> u64 {
    if count < u64::MAX {
        (count + 1) as u64
    } else {
        count
    }
}

impl SinkView {
    /// No two consumers share a name, and time has begun.
    pub open spec fn wf(self) -> bool {
        &&& forall|i: int, j: int|
            0 <= i < j < self.consumers.len() ==> (#[trigger] self.consumers[i]).id != (
            #[trigger] self.consumers[j]).id
        &&& self.pts >= FIRST_PTS
        &&& self.again.raw < 0
    }

    /// The sink before its first tick, with no consumer.
    pub open spec fn initial(again: Error) -> SinkView {
        SinkView {
            consumers: Seq::empty(),
            pts: FIRST_PTS,
            phase: SinkPhase::Idle,
            again,
            dropped: 0,
        }
    }

    /// The tick is over in good order.
    pub open spec fn finish(self) -> (SinkView, SinkActionView) {
        (
            SinkView { phase: SinkPhase::Idle, pts: next_pts(self.pts), ..self },
            SinkActionView::Wait,
        )
    }

    /// The tick is skipped: its frame is dropped, and nothing else changes
    /// but the time.
    pub open spec fn skip(self) -> (SinkView, SinkActionView) {
        (
            SinkView {
                phase: SinkPhase::Idle,
                pts: next_pts(self.pts),
                dropped: next_count(self.dropped),
                ..self
            },
            SinkActionView::Wait,
        )
    }

    /// One step of the sink. A tick starts the cycle of converting,
    /// encoding and receiving. Every unit that the encoder gives is
    /// forwarded, byte for byte; when it has none for now, the tick is
    /// over. A failure of converting, encoding or receiving skips the tick;
    /// so does an event that is not the awaited one.
    pub open spec fn step(self, event: SinkEventView) -> (SinkView, SinkActionView) {
        match (self.phase, event) {
            (SinkPhase::Idle, SinkEventView::Tick) => (
                SinkView { phase: SinkPhase::Converting, ..self },
                SinkActionView::Convert { pts: self.pts },
            ),
            (SinkPhase::Converting, SinkEventView::Converted { status }) => if status < 0 {
                self.skip()
            } else {
                (
                    SinkView { phase: SinkPhase::Encoding, ..self },
                    SinkActionView::Encode { pts: self.pts },
                )
            },
            (SinkPhase::Encoding, SinkEventView::Encoded { status }) => if status < 0 {
                self.skip()
            } else {
                (SinkView { phase: SinkPhase::Receiving, ..self }, SinkActionView::Receive)
            },
            (SinkPhase::Receiving, SinkEventView::Unit { status, packet, data }) => if status
                >= 0 {
                (
                    SinkView { consumers: primed_by(self.consumers, packet.keyframe), ..self },
                    SinkActionView::Deliver {
                        consumers: recipients(self.consumers, packet.keyframe),
                        data,
                        duration_millis: TICK_MILLIS,
                    },
                )
            } else if status == self.again.raw || status == AVERROR_EOF {
                self.finish()
            } else {
                self.skip()
            },
            _ => self.skip(),
        }
    }

    /// The state with a consumer of this name attached, not primed; as it
    /// was if one is attached already.
    pub open spec fn attach(self, id: u64) -> SinkView {
        if attached(self.consumers, id) {
            self
        } else {
            SinkView { consumers: self.consumers.push(Consumer { id, primed: false }), ..self }
        }
    }

    /// The state without the consumer of this name.
    pub open spec fn detach(self, id: u64) -> SinkView {
        SinkView { consumers: self.consumers.filter(|c: Consumer| c.id != id), ..self }
    }
}

/// The sink pipeline.
pub struct SinkPipeline {
    consumers: Vec<Consumer>,
    pts: i64,
    phase: SinkPhase,
    again: Error,
    dropped: u64,
}

impl View for SinkPipeline {
    type V = SinkView;

    closed spec fn view(&self) -> SinkView {
        SinkView {
            consumers: self.consumers@,
            pts: self.pts,
            phase: self.phase,
            again: self.again,
            dropped: self.dropped,
        }
    }
}

impl SinkPipeline {
    /// The invariant of the sink.
    pub open spec fn wf(&self) -> bool {
        self@.wf()
    }

    /// The sink before its first tick, with no consumer. `again` is the
    /// status by which the encoder says that it has no unit for now; `None`
    /// when that is no failure status.
    pub fn new(again: Error) -> (sink: Option<SinkPipeline>)
        ensures
            sink.is_some() <==> again.raw < 0,
            sink matches Some(s) ==> s.wf() && s@ == SinkView::initial(again),
    {
        if again.raw >= 0 {
            return None;
        }
        Some(
            SinkPipeline {
                consumers: Vec::new(),
                pts: FIRST_PTS,
                phase: SinkPhase::Idle,
                again,
                dropped: 0,
            },
        )
    }

    /// The presentation time of the current tick, in ticks.
    pub fn pts(&self) -> (pts: i64)
        ensures
            pts == self@.pts,
    {
        self.pts
    }

    /// The number of ticks that were skipped.
    pub fn dropped(&self) -> (dropped: u64)
        ensures
            dropped == self@.dropped,
    {
        self.dropped
    }

    /// The number of attached consumers.
    pub fn consumer_count(&self) -> (count: usize)
        ensures
            count == self@.consumers.len(),
    {
        self.consumers.len()
    }

    fn position(&self, id: u64) -> (found: Option<usize>)
        ensures
            found matches Some(i) ==> i < self@.consumers.len() && self@.consumers[i as int].id
                == id,
            found is None ==> !attached(self@.consumers, id),
    {
        let mut i: usize = 0;
        while i < self.consumers.len()
            invariant
                i <= self.consumers@.len(),
                forall|k: int| 0 <= k < i ==> (#[trigger] self.consumers@[k]).id != id,
            decreases self.consumers@.len() - i,
        {
            if self.consumers[i].id == id {
                return Some(i);
            }
            i += 1;
        }
        None
    }

    /// Whether a consumer of this name is attached.
    pub fn is_attached(&self, id: u64) -> (found: bool)
        ensures
            found == attached(self@.consumers, id),
    {
        self.position(id).is_some()
    }

    /// Attaches a consumer, whatever the sink is doing. It is served from
    /// the next unit at which decoding can start. Returns whether it was
    /// attached: not if a consumer of this name is attached already.
    pub fn attach(&mut self, id: u64) -> (added: bool)
        requires
            old(self).wf(),
        ensures
            final(self).wf(),
            added == !attached(old(self)@.consumers, id),
            final(self)@ == old(self)@.attach(id),
    {
        if self.position(id).is_some() {
            return false;
        }
        self.consumers.push(Consumer { id, primed: false });
        true
    }

    /// Detaches a consumer, whatever the sink is doing. Returns whether one
    /// of this name was attached.
    pub fn detach(&mut self, id: u64) -> (removed: bool)
        requires
            old(self).wf(),
        ensures
            final(self).wf(),
            removed == attached(old(self)@.consumers, id),
            final(self)@ == old(self)@.detach(id),
    {
        match self.position(id) {
            Some(i) => {
                let ghost before = self.consumers@;
                self.consumers.remove(i);
                proof {
                    lemma_filter_removes_the_one(before, i as int);
                }
                true
            },
            None => {
                proof {
                    lemma_filter_keeps_all(self.consumers@, id);
                }
                false
            },
        }
    }

    fn skip(&mut self) -> (action: SinkAction)
        requires
            old(self).wf(),
        ensures
            final(self).wf(),
            (final(self)@, action@) == old(self)@.skip(),
    {
        self.phase = SinkPhase::Idle;
        if self.pts < i64::MAX {
            self.pts = self.pts + 1;
        }
        if self.dropped < u64::MAX {
            self.dropped = self.dropped + 1;
        }
        assert(self@.consumers == old(self)@.consumers);
        SinkAction::Wait
    }

    fn deliver(&mut self, keyframe: bool) -> (names: Vec<u64>)
        requires
            old(self).wf(),
        ensures
            final(self).wf(),
            names@ == recipients(old(self)@.consumers, keyframe),
            final(self)@ == (SinkView {
                consumers: primed_by(old(self)@.consumers, keyframe),
                ..old(self)@
            }),
    {
        let mut names: Vec<u64> = Vec::new();
        let mut i: usize = 0;
        let ghost before = self.consumers@;
        while i < self.consumers.len()
            invariant
                i <= before.len(),
                self.consumers@.len() == before.len(),
                names@ == recipients(before.take(i as int), keyframe),
                forall|k: int|
                    0 <= k < i ==> (#[trigger] self.consumers@[k]) == (Consumer {
                        id: before[k].id,
                        primed: before[k].primed || keyframe,
                    }),
                forall|k: int| i <= k < before.len() ==> (#[trigger] self.consumers@[k]) == before[k],
                self.pts == old(self).pts,
                self.phase == old(self).phase,
                self.again == old(self).again,
                self.dropped == old(self).dropped,
            decreases before.len() - i,
        {
            let consumer = self.consumers[i];
            proof {
                assert(before.take(i as int + 1).drop_last() =~= before.take(i as int));
                assert(before.take(i as int + 1).last() == before[i as int]);
            }
            if consumer.primed || keyframe {
                names.push(consumer.id);
                self.consumers.set(i, Consumer { id: consumer.id, primed: true });
            }
            i += 1;
        }
        assert(before.take(i as int) =~= before);
        assert(self.consumers@ =~= primed_by(before, keyframe));
        names
    }

    /// Starts a tick on a triple buffer: takes the newest published slot
    /// for the reader, without waiting for a fresher one, and asks for its
    /// conversion. If no frame was published since the last tick, the slot
    /// is the one of the last tick. A tick that comes while the last one is
    /// not over is skipped, and the reader keeps its slot.
    pub fn tick(&mut self, buffer: &mut TripleBuffer) -> (action: SinkAction)
        requires
            old(self).wf(),
            old(buffer).wf(),
        ensures
            final(self).wf(),
            final(buffer).wf(),
            (final(self)@, action@) == old(self)@.step(SinkEventView::Tick),
            final(buffer)@ == if old(self)@.phase is Idle {
                old(buffer)@.acquire()
            } else {
                old(buffer)@
            },
    {
        let idle: bool = match self.phase {
            SinkPhase::Idle => true,
            _ => false,
        };
        if idle {
            buffer.about_to_read();
        }
        self.step(SinkEvent::Tick)
    }

    /// Takes one step: reads `event`, changes state, and says what to do
    /// next. No event makes the sink stop: a failure skips the tick.
    pub fn step(&mut self, event: SinkEvent<'_>) -> (action: SinkAction)
        requires
            old(self).wf(),
        ensures
            final(self).wf(),
            (final(self)@, action@) == old(self)@.step(event@),
    {
        match (self.phase, event) {
            (SinkPhase::Idle, SinkEvent::Tick) => {
                self.phase = SinkPhase::Converting;
                assert(self@.consumers == old(self)@.consumers);
                SinkAction::Convert { pts: self.pts }
            },
            (SinkPhase::Converting, SinkEvent::Converted { status }) => {
                if status < 0 {
                    self.skip()
                } else {
                    self.phase = SinkPhase::Encoding;
                    assert(self@.consumers == old(self)@.consumers);
                    SinkAction::Encode { pts: self.pts }
                }
            },
            (SinkPhase::Encoding, SinkEvent::Encoded { status }) => {
                if status < 0 {
                    self.skip()
                } else {
                    self.phase = SinkPhase::Receiving;
                    assert(self@.consumers == old(self)@.consumers);
                    SinkAction::Receive
                }
            },
            (SinkPhase::Receiving, SinkEvent::Unit { status, packet, data }) => {
                if status >= 0 {
                    let consumers = self.deliver(packet.keyframe);
                    SinkAction::Deliver {
                        consumers,
                        data: copy_to_bytes(data),
                        duration_millis: TICK_MILLIS,
                    }
                } else if status == self.again.raw || status == AVERROR_EOF {
                    self.phase = SinkPhase::Idle;
                    if self.pts < i64::MAX {
                        self.pts = self.pts + 1;
                    }
                    assert(self@.consumers == old(self)@.consumers);
                    SinkAction::Wait
                } else {
                    self.skip()
                }
            },
            _ => self.skip(),
        }
    }
}

/// A unit goes to exactly the attached consumers that are primed, and to
/// every attached consumer if decoding can start at it.
pub proof fn lemma_recipients(consumers: Seq<Consumer>, keyframe: bool, id: u64)
    ensures
        recipients(consumers, keyframe).contains(id) <==> exists|i: int|
            0 <= i < consumers.len() && (#[trigger] consumers[i]).id == id && (consumers[i].primed
                || keyframe),
    decreases consumers.len(),
{
    if consumers.len() > 0 {
        let earlier = consumers.drop_last();
        let last = consumers.last();
        lemma_recipients(earlier, keyframe, id);
        let names = recipients(consumers, keyframe);
        let before = recipients(earlier, keyframe);
        if names.contains(id) {
            let k = choose|k: int| 0 <= k < names.len() && names[k] == id;
            if (last.primed || keyframe) && k == names.len() - 1 {
                assert(consumers[consumers.len() - 1].id == id);
            } else {
                assert(before[k] == id);
                let i = choose|i: int|
                    0 <= i < earlier.len() && (#[trigger] earlier[i]).id == id && (
                    earlier[i].primed || keyframe);
                assert(consumers[i] == earlier[i]);
            }
        }
        if exists|i: int|
            0 <= i < consumers.len() && (#[trigger] consumers[i]).id == id && (consumers[i].primed
                || keyframe) {
            let i = choose|i: int|
                0 <= i < consumers.len() && (#[trigger] consumers[i]).id == id && (
                consumers[i].primed || keyframe);
            if i == consumers.len() - 1 {
                assert(names[names.len() - 1] == id);
            } else {
                assert(earlier[i] == consumers[i]);
                let k = choose|k: int| 0 <= k < before.len() && before[k] == id;
                assert(names[k] == id);
            }
        }
    }
}

/// A consumer that was just attached gets no unit until the encoder gives
/// one at which decoding can start: it gets that unit, and from then on
/// every unit.
pub proof fn lemma_new_consumer_starts_at_a_keyframe(sink: SinkView, id: u64, keyframe: bool)
    requires
        sink.wf(),
        !attached(sink.consumers, id),
    ensures
        sink.attach(id).wf(),
        recipients(sink.attach(id).consumers, keyframe).contains(id) <==> keyframe,
        keyframe ==> forall|later: bool|
            recipients(primed_by(sink.attach(id).consumers, keyframe), later).contains(id),
{
    let joined = sink.attach(id).consumers;
    let last = joined.len() - 1;
    assert(joined[last] == (Consumer { id, primed: false }));
    lemma_recipients(joined, keyframe, id);
    if recipients(joined, keyframe).contains(id) {
        let i = choose|i: int|
            0 <= i < joined.len() && (#[trigger] joined[i]).id == id && (joined[i].primed
                || keyframe);
        if i < last {
            assert(sink.consumers[i].id == id);
        }
    }
    if keyframe {
        assert forall|later: bool|
            recipients(primed_by(joined, keyframe), later).contains(id) by {
            lemma_recipients(primed_by(joined, keyframe), later, id);
            assert(primed_by(joined, keyframe)[last].id == id);
        }
    }
}

/// Attaching and detaching leave the cycle, the time and the other
/// consumers as they are.
pub proof fn lemma_attach_and_detach_disturb_nothing(sink: SinkView, id: u64)
    requires
        sink.wf(),
    ensures
        sink.attach(id).wf(),
        sink.detach(id).wf(),
        sink.attach(id).phase == sink.phase && sink.attach(id).pts == sink.pts,
        sink.detach(id).phase == sink.phase && sink.detach(id).pts == sink.pts,
        forall|i: int|
            0 <= i < sink.consumers.len() ==> sink.attach(id).consumers[i]
                == #[trigger] sink.consumers[i],
        forall|c: Consumer|
            sink.detach(id).consumers.contains(c) <==> sink.consumers.contains(c) && c.id != id,
        attached(sink.attach(id).consumers, id),
        !attached(sink.detach(id).consumers, id),
{
    let keep = |c: Consumer| c.id != id;
    let left = sink.consumers.filter(keep);
    assert forall|c: Consumer| left.contains(c) <==> sink.consumers.contains(c) && c.id
        != id by {
        if left.contains(c) {
            sink.consumers.lemma_filter_contains_rev(keep, c);
            let k = choose|k: int| 0 <= k < left.len() && left[k] == c;
            sink.consumers.lemma_filter_pred(keep, k);
        }
        if sink.consumers.contains(c) && c.id != id {
            let k = choose|k: int| 0 <= k < sink.consumers.len() && sink.consumers[k] == c;
            sink.consumers.lemma_filter_contains(keep, k);
        }
    }
    if attached(left, id) {
        let i = choose|i: int| 0 <= i < left.len() && (#[trigger] left[i]).id == id;
        sink.consumers.lemma_filter_pred(keep, i);
    }
    if !attached(sink.consumers, id) {
        let joined = sink.attach(id).consumers;
        assert(joined[joined.len() - 1].id == id);
    }
    lemma_filter_keeps_distinct(sink.consumers, id);
}

/// Filtering keeps names distinct.
proof fn lemma_filter_keeps_distinct(consumers: Seq<Consumer>, id: u64)
    requires
        forall|i: int, j: int|
            0 <= i < j < consumers.len() ==> (#[trigger] consumers[i]).id != (
            #[trigger] consumers[j]).id,
    ensures
        ({
            let left = consumers.filter(|c: Consumer| c.id != id);
            forall|i: int, j: int|
                0 <= i < j < left.len() ==> (#[trigger] left[i]).id != (#[trigger] left[j]).id
        }),
    decreases consumers.len(),
{
    let keep = |c: Consumer| c.id != id;
    let left = consumers.filter(keep);
    reveal(Seq::filter);
    if consumers.len() > 0 {
        let earlier = consumers.drop_last();
        let last = consumers.last();
        lemma_filter_keeps_distinct(earlier, id);
        let before = earlier.filter(keep);
        if keep(last) {
            assert(left =~= before.push(last));
            assert forall|i: int, j: int| 0 <= i < j < left.len() implies (#[trigger] left[i]).id
                != (#[trigger] left[j]).id by {
                if j == left.len() - 1 {
                    assert(before.contains(before[i]));
                    earlier.lemma_filter_contains_rev(keep, before[i]);
                    assert(earlier.contains(before[i]));
                    let k = choose|k: int| 0 <= k < earlier.len() && earlier[k] == before[i];
                    assert(consumers[k] == before[i]);
                    assert(consumers[consumers.len() - 1] == last);
                } else {
                    assert(left[i] == before[i]);
                    assert(left[j] == before[j]);
                }
            }
        } else {
            assert(left =~= before);
        }
    }
}

/// The sink never stops: whatever is reported, it stays well formed, and a
/// failure of converting, encoding or receiving ends the tick without
/// touching the consumers, so that the next tick starts as usual.
pub proof fn lemma_failure_skips_one_tick(sink: SinkView, event: SinkEventView)
    requires
        sink.wf(),
    ensures
        sink.step(event).0.wf(),
        sink.step(event).1 is Wait ==> sink.step(event).0.phase is Idle && sink.step(
            event,
        ).0.consumers == sink.consumers && sink.step(event).0.step(SinkEventView::Tick).1
            is Convert,
        match event {
            SinkEventView::Converted { status } => status < 0 ==> sink.step(event).1 is Wait,
            SinkEventView::Encoded { status } => status < 0 ==> sink.step(event).1 is Wait,
            SinkEventView::Unit { status, .. } => status < 0 ==> sink.step(event).1 is Wait,
            SinkEventView::Tick => true,
        },
{
    match (sink.phase, event) {
        (SinkPhase::Receiving, SinkEventView::Unit { status, packet, data }) => {
            if status >= 0 {
                let next = primed_by(sink.consumers, packet.keyframe);
                assert forall|i: int, j: int| 0 <= i < j < next.len() implies (#[trigger] next[i]).id
                    != (#[trigger] next[j]).id by {
                    assert(sink.consumers[i].id != sink.consumers[j].id);
                }
            }
        },
        _ => {},
    }
}

/// Filtering by a name that one element has, and no other, removes that
/// element.
proof fn lemma_filter_removes_the_one(consumers: Seq<Consumer>, index: int)
    requires
        0 <= index < consumers.len(),
        forall|i: int, j: int|
            0 <= i < j < consumers.len() ==> (#[trigger] consumers[i]).id != (
            #[trigger] consumers[j]).id,
    ensures
        consumers.filter(|c: Consumer| c.id != consumers[index].id) == consumers.remove(index),
    decreases consumers.len(),
{
    let id = consumers[index].id;
    let keep = |c: Consumer| c.id != id;
    reveal(Seq::filter);
    let earlier = consumers.drop_last();
    if index == consumers.len() - 1 {
        lemma_filter_keeps_all(earlier, id);
        assert(consumers.remove(index) =~= earlier);
    } else {
        assert(earlier[index] == consumers[index]);
        lemma_filter_removes_the_one(earlier, index);
        assert(consumers.last().id != id);
        assert(earlier.remove(index).push(consumers.last()) =~= consumers.remove(index));
    }
}

/// Filtering by a name that no element has keeps every element.
proof fn lemma_filter_keeps_all(consumers: Seq<Consumer>, id: u64)
    requires
        forall|i: int| 0 <= i < consumers.len() ==> (#[trigger] consumers[i]).id != id,
    ensures
        consumers.filter(|c: Consumer| c.id != id) == consumers,
        !attached(consumers, id),
    decreases consumers.len(),
{
    reveal(Seq::filter);
    if consumers.len() > 0 {
        lemma_filter_keeps_all(consumers.drop_last(), id);
        assert(consumers.drop_last().push(consumers.last()) =~= consumers);
    } else {
        assert(consumers.filter(|c: Consumer| c.id != id) =~= consumers);
    }
}

} // verus!
