//! The triple buffer: three slots through which one writer hands frames to
//! one reader without either waiting for the other.

use crate::format::{Buffer, BufferView};
use crate::state::BufferState;
use vstd::prelude::*;

verus! {

/// The abstract state of a triple buffer.
pub struct TripleBufferView {
    /// What each of the three slots holds.
    pub slots: Seq<BufferView>,
    /// The roles of the slots.
    pub state: BufferState,
    /// The initial frame, followed by every frame published so far, oldest
    /// first.
    pub history: Seq<BufferView>,
    /// The position in `history` of the frame that the reader holds.
    pub read_generation: nat,
}

/// One step of the writer or of the reader.
pub enum Step {
    /// The writer leaves this frame in its slot.
    Store(BufferView),
    /// The writer publishes its slot.
    Publish,
    /// The reader takes the newest published slot.
    Acquire,
}

impl TripleBufferView {
    /// The slots have the fixed format, the roles are well formed, the
    /// published slot holds the last frame of the history, and the reader's
    /// slot holds the frame of its generation.
    pub open spec fn wf(self) -> bool {
        &&& self.slots.len() == 3
        &&& forall|i: int| 0 <= i < 3 ==> (#[trigger] self.slots[i]).wf()
        &&& self.state.wf()
        &&& self.history.len() >= 1
        &&& self.read_generation < self.history.len()
        &&& self.slots[self.state.published as int] == self.history.last()
        &&& self.slots[self.state.reading as int] == self.history[self.read_generation as int]
        &&& self.state.spec_novel() <==> self.read_generation + 1 < self.history.len()
        &&& self.state.ready <==> self.history.len() > 1
    }

    /// A fresh buffer: every slot zero, nothing published.
    pub open spec fn initial() -> TripleBufferView {
        TripleBufferView {
            slots: Seq::new(3, |i: int| BufferView::zero()),
            state: BufferState::spec_initial(),
            history: seq![BufferView::zero()],
            read_generation: 0,
        }
    }

    /// The frame in the reader's slot.
    pub open spec fn front(self) -> BufferView {
        self.slots[self.state.reading as int]
    }

    /// The newest published frame.
    pub open spec fn newest(self) -> BufferView {
        self.slots[self.state.published as int]
    }

    /// The frame in the writer's slot.
    pub open spec fn back(self) -> BufferView {
        self.slots[self.state.writable as int]
    }

    /// The number of frames published so far.
    pub open spec fn published_count(self) -> nat {
        (self.history.len() - 1) as nat
    }

    /// The state after the writer has left `frame` in its slot.
    pub open spec fn store(self, frame: BufferView) -> TripleBufferView {
        TripleBufferView { slots: self.slots.update(self.state.writable as int, frame), ..self }
    }

    /// The state after the writer has published its slot.
    pub open spec fn publish(self) -> TripleBufferView {
        TripleBufferView {
            slots: self.slots,
            state: self.state.spec_publish(),
            history: self.history.push(self.back()),
            read_generation: self.read_generation,
        }
    }

    /// The state after the reader has taken the newest published slot.
    pub open spec fn acquire(self) -> TripleBufferView {
        TripleBufferView {
            slots: self.slots,
            state: self.state.spec_acquire(),
            history: self.history,
            read_generation: self.published_count(),
        }
    }

    /// The state after one step.
    pub open spec fn step(self, step: Step) -> TripleBufferView {
        match step {
            Step::Store(frame) => self.store(frame),
            Step::Publish => self.publish(),
            Step::Acquire => self.acquire(),
        }
    }

    /// The state after a sequence of steps of the writer and the reader, in
    /// the order in which they took effect.
    pub open spec fn run(self, steps: Seq<Step>) -> TripleBufferView
        decreases steps.len(),
    {
        if steps.len() == 0 {
            self
        } else {
            self.run(steps.drop_last()).step(steps.last())
        }
    }
}

impl Step {
    /// A stored frame has the fixed format.
    pub open spec fn wf(self) -> bool {
        match self {
            Step::Store(frame) => frame.wf(),
            _ => true,
        }
    }
}

/// Every step is well formed.
pub open spec fn steps_wf(steps: Seq<Step>) -> bool {
    forall|i: int| 0 <= i < steps.len() ==> (#[trigger] steps[i]).wf()
}

/// A frame that the writer stores and publishes is the frame that the
/// reader holds after it next takes the newest slot, byte for byte.
pub proof fn lemma_round_trip(buffer: TripleBufferView, frame: BufferView)
    requires
        buffer.wf(),
        frame.wf(),
    ensures
        buffer.store(frame).publish().acquire().wf(),
        buffer.store(frame).publish().acquire().front() == frame,
{
    lemma_step_keeps_wf(buffer, Step::Store(frame));
    lemma_step_keeps_wf(buffer.store(frame), Step::Publish);
    lemma_step_keeps_wf(buffer.store(frame).publish(), Step::Acquire);
}

/// Whatever the writer leaves in its slot, the reader's slot and the
/// published slot keep their frames: the reader never sees a frame that is
/// being written.
pub proof fn lemma_no_tearing(buffer: TripleBufferView, frame: BufferView)
    requires
        buffer.wf(),
    ensures
        buffer.store(frame).front() == buffer.front(),
        buffer.store(frame).newest() == buffer.newest(),
        buffer.store(frame).history == buffer.history,
        buffer.store(frame).read_generation == buffer.read_generation,
{
}

/// One step keeps the invariant, never shortens the history and never
/// moves the reader to an older frame.
pub proof fn lemma_step_keeps_wf(buffer: TripleBufferView, step: Step)
    requires
        buffer.wf(),
        step.wf(),
    ensures
        buffer.step(step).wf(),
        buffer.history.is_prefix_of(buffer.step(step).history),
        buffer.read_generation <= buffer.step(step).read_generation,
{
    let next = buffer.step(step);
    match step {
        Step::Store(frame) => {
            assert forall|i: int| 0 <= i < 3 implies (#[trigger] next.slots[i]).wf() by {
                if i != buffer.state.writable as int {
                    assert(next.slots[i] == buffer.slots[i]);
                }
            }
        },
        Step::Publish => {
            buffer.state.lemma_publish_picks_the_stale_slot();
        },
        Step::Acquire => {},
    }
}

/// After any sequence of steps of the writer and the reader, the invariant
/// holds: the reader's slot holds, whole, one of the frames published so
/// far (or the initial frame), and the published slot holds the last one.
pub proof fn lemma_run_keeps_wf(buffer: TripleBufferView, steps: Seq<Step>)
    requires
        buffer.wf(),
        steps_wf(steps),
    ensures
        buffer.run(steps).wf(),
        buffer.run(steps).front() == buffer.run(steps).history[buffer.run(
            steps,
        ).read_generation as int],
        buffer.run(steps).newest() == buffer.run(steps).history.last(),
        buffer.history.is_prefix_of(buffer.run(steps).history),
        buffer.read_generation <= buffer.run(steps).read_generation,
    decreases steps.len(),
{
    if steps.len() > 0 {
        let earlier = steps.drop_last();
        assert(steps_wf(earlier)) by {
            assert forall|i: int| 0 <= i < earlier.len() implies (#[trigger] earlier[i]).wf() by {
                assert(earlier[i] == steps[i]);
            }
        }
        lemma_run_keeps_wf(buffer, earlier);
        lemma_step_keeps_wf(buffer.run(earlier), steps.last());
    }
}

/// A run of steps can be cut in two.
pub proof fn lemma_run_split(buffer: TripleBufferView, steps: Seq<Step>, cut: int)
    requires
        0 <= cut <= steps.len(),
    ensures
        buffer.run(steps) == buffer.run(steps.take(cut)).run(steps.skip(cut)),
    decreases steps.len() - cut,
{
    if cut == steps.len() {
        assert(steps.take(cut) =~= steps);
        assert(steps.skip(cut).len() == 0);
    } else {
        let earlier = steps.drop_last();
        lemma_run_split(buffer, earlier, cut);
        assert(earlier.take(cut) =~= steps.take(cut));
        assert(earlier.skip(cut) =~= steps.skip(cut).drop_last());
        assert(steps.skip(cut).last() == steps.last());
    }
}

/// However the steps of a fast writer and a slow reader interleave, the
/// frame that the reader holds after more steps is never older than the
/// frame it held after fewer.
pub proof fn lemma_reads_never_go_back(
    buffer: TripleBufferView,
    steps: Seq<Step>,
    earlier: int,
    later: int,
)
    requires
        buffer.wf(),
        steps_wf(steps),
        0 <= earlier <= later <= steps.len(),
    ensures
        buffer.run(steps.take(earlier)).read_generation <= buffer.run(
            steps.take(later),
        ).read_generation,
        buffer.run(steps.take(earlier)).history.is_prefix_of(
            buffer.run(steps.take(later)).history,
        ),
{
    let head = steps.take(later);
    assert(steps_wf(head));
    assert(steps_wf(head.take(earlier)));
    assert(steps_wf(head.skip(earlier)));
    assert(head.take(earlier) =~= steps.take(earlier));
    lemma_run_split(buffer, head, earlier);
    lemma_run_keeps_wf(buffer, head.take(earlier));
    lemma_run_keeps_wf(buffer.run(head.take(earlier)), head.skip(earlier));
}

/// Right after the reader takes the newest slot it holds the last frame
/// published: its lag is bounded by what the writer publishes afterwards.
pub proof fn lemma_acquire_catches_up(buffer: TripleBufferView)
    requires
        buffer.wf(),
    ensures
        buffer.acquire().read_generation == buffer.published_count(),
        buffer.acquire().front() == buffer.history.last(),
        !buffer.acquire().state.spec_novel(),
{
}

/// Three slots and their roles. The writer fills the slot that `write`
/// hands out and publishes it with `done_writing`; the reader takes the
/// newest published slot with `about_to_read` and looks at it with `read`.
pub struct TripleBuffer {
    slots: Vec<Buffer>,
    state: BufferState,
    history: Ghost<Seq<BufferView>>,
    read_generation: Ghost<nat>,
}

impl View for TripleBuffer {
    type V = TripleBufferView;

    closed spec fn view(&self) -> TripleBufferView {
        TripleBufferView {
            slots: Seq::new(self.slots@.len(), |i: int| self.slots@[i]@),
            state: self.state,
            history: self.history@,
            read_generation: self.read_generation@,
        }
    }
}

impl TripleBuffer {
    /// The invariant of the buffer.
    pub open spec fn wf(&self) -> bool {
        self@.wf()
    }

    /// A fresh buffer: every slot zero, nothing published.
    pub fn new() -> (buffer: TripleBuffer)
        ensures
            buffer.wf(),
            buffer@ == TripleBufferView::initial(),
    {
        let mut slots: Vec<Buffer> = Vec::new();
        slots.push(Buffer::new());
        slots.push(Buffer::new());
        slots.push(Buffer::new());
        let ghost history = TripleBufferView::initial().history;
        let buffer = TripleBuffer {
            slots,
            state: BufferState::initial(),
            history: Ghost(history),
            read_generation: Ghost(0),
        };
        assert(buffer@.slots =~= TripleBufferView::initial().slots);
        buffer
    }

    /// Whether a frame was published that the reader has not taken yet.
    pub fn novel_to_read(&self) -> (novel: bool)
        requires
            self.wf(),
        ensures
            novel == self@.state.spec_novel(),
            novel == (self@.read_generation < self@.published_count()),
    {
        self.state.novel()
    }

    /// Whether the writer has published at least one frame. Until then the
    /// reader's slot holds the zero frame.
    pub fn is_ready(&self) -> (ready: bool)
        requires
            self.wf(),
        ensures
            ready == self@.state.ready,
            ready == (self@.published_count() > 0),
    {
        self.state.ready
    }

    /// Takes the newest published slot for the reader, which keeps it until
    /// the next call. The slot given up becomes available to the writer.
    pub fn about_to_read(&mut self)
        requires
            old(self).wf(),
        ensures
            final(self).wf(),
            final(self)@ == old(self)@.acquire(),
            final(self)@.front() == old(self)@.newest(),
            final(self)@.read_generation >= old(self)@.read_generation,
    {
        self.state = self.state.acquire();
        self.read_generation = Ghost(self@.published_count());
        assert(self@.slots =~= old(self)@.slots);
    }

    /// Publishes the slot that the writer has filled as the newest frame.
    pub fn done_writing(&mut self)
        requires
            old(self).wf(),
        ensures
            final(self).wf(),
            final(self)@ == old(self)@.publish(),
            final(self)@.newest() == old(self)@.back(),
            final(self)@.front() == old(self)@.front(),
    {
        proof {
            self.state.lemma_publish_picks_the_stale_slot();
        }
        self.history = Ghost(self.history@.push(self@.back()));
        self.state = self.state.publish();
        assert(self@.slots =~= old(self)@.slots);
    }

    /// The slot that the reader holds: the frame that was the newest when
    /// `about_to_read` was last called, whole.
    pub fn read(&self) -> (slot: &Buffer)
        requires
            self.wf(),
        ensures
            slot@ == self@.front(),
            slot@ == self@.history[self@.read_generation as int],
            slot.wf(),
    {
        &self.slots[self.state.reading as usize]
    }

    /// The slot that the writer fills next. Whatever is written through the
    /// returned reference, the reader's slot and the published slot keep
    /// their frames.
    pub fn write(&mut self) -> (slot: &mut Buffer)
        requires
            old(self).wf(),
        ensures
            slot@ == old(self)@.back(),
            slot.wf(),
            final(self)@ == old(self)@.store(final(slot)@),
            final(slot).wf() ==> final(self).wf(),
    {
        let ghost before = self@;
        let index: usize = self.state.writable as usize;
        assert(before.slots[index as int].wf());
        let slot = &mut self.slots[index];
        proof {
            let after = TripleBufferView {
                slots: Seq::new(
                    after_borrow(self.slots)@.len(),
                    |i: int| after_borrow(self.slots)@[i]@,
                ),
                state: self.state,
                history: self.history@,
                read_generation: self.read_generation@,
            };
            assert(after.slots =~= before.slots.update(index as int, final(slot)@));
        }
        slot
    }
}

} // verus!
