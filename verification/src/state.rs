//! The control word of a shared region: which slot is being read, which
//! holds the newest published frame, and which is the next write target.

use vstd::prelude::*;

verus! {

/// The roles of the three slots, and whether anything was published yet.
#[derive(Clone, Copy, Debug, PartialEq, Eq, Structural)]
pub struct BufferState {
    /// The slot held by the reader.
    pub reading: u8,
    /// The slot that holds the newest complete frame.
    pub published: u8,
    /// The slot that the writer fills next.
    pub writable: u8,
    /// Whether the writer has published at least one frame.
    pub ready: bool,
}

impl BufferState {
    /// Every role names one of the three slots, and the write target is
    /// neither the slot being read nor the published one.
    pub open spec fn wf(self) -> bool {
        &&& self.reading < 3
        &&& self.published < 3
        &&& self.writable < 3
        &&& self.writable != self.reading
        &&& self.writable != self.published
    }

    /// The state of a fresh region: nothing published, the reader on slot 0
    /// and the writer on slot 1.
    pub open spec fn spec_initial() -> BufferState {
        BufferState { reading: 0, published: 0, writable: 1, ready: false }
    }

    /// The slot that is neither being read nor being written.
    pub open spec fn spec_spare(self) -> u8 {
        (3 - self.reading - self.writable) as u8
    }

    /// The state after the writer publishes the slot it has filled: that slot
    /// becomes the newest, and of the two slots that the reader does not
    /// hold, the other one becomes the write target.
    pub open spec fn spec_publish(self) -> BufferState {
        BufferState {
            reading: self.reading,
            published: self.writable,
            writable: self.spec_spare(),
            ready: true,
        }
    }

    /// The state after the reader takes the newest published slot.
    pub open spec fn spec_acquire(self) -> BufferState {
        BufferState {
            reading: self.published,
            published: self.published,
            writable: self.writable,
            ready: self.ready,
        }
    }

    /// Whether the published slot differs from the one the reader holds.
    pub open spec fn spec_novel(self) -> bool {
        self.published != self.reading
    }

    /// The control word: two bits for each role, then the ready bit. The
    /// write target is counted from slot 1, so that the word of a fresh
    /// region is zero.
    pub open spec fn spec_word(self) -> u32 {
        (self.reading + 4 * self.published + 16 * ((self.writable + 2) % 3) + if self.ready {
            64int
        } else {
            0int
        }) as u32
    }

    /// The state that a control word encodes, if it encodes one.
    pub open spec fn spec_from_word(word: u32) -> Option<BufferState> {
        let state = BufferState {
            reading: (word % 4) as u8,
            published: ((word / 4) % 4) as u8,
            writable: (((word / 16) % 4 + 1) % 3) as u8,
            ready: (word / 64) % 2 == 1,
        };
        if word < 128 && (word / 16) % 4 < 3 && state.wf() {
            Some(state)
        } else {
            None
        }
    }

    /// The state of a fresh region.
    pub fn initial() -> (state: BufferState)
        ensures
            state == Self::spec_initial(),
            state.wf(),
    {
        BufferState { reading: 0, published: 0, writable: 1, ready: false }
    }

    /// Whether a frame was published that the reader has not taken yet.
    pub fn novel(self) -> (novel: bool)
        ensures
            novel == self.spec_novel(),
    {
        self.published != self.reading
    }

    /// The state after the writer publishes the slot it has filled.
    pub fn publish(self) -> (next: BufferState)
        requires
            self.wf(),
        ensures
            next == self.spec_publish(),
            next.wf(),
    {
        BufferState {
            reading: self.reading,
            published: self.writable,
            writable: 3 - self.reading - self.writable,
            ready: true,
        }
    }

    /// The state after the reader takes the newest published slot.
    pub fn acquire(self) -> (next: BufferState)
        requires
            self.wf(),
        ensures
            next == self.spec_acquire(),
            next.wf(),
    {
        BufferState {
            reading: self.published,
            published: self.published,
            writable: self.writable,
            ready: self.ready,
        }
    }

    /// The control word that encodes this state.
    pub fn to_word(self) -> (word: u32)
        requires
            self.wf(),
        ensures
            word == self.spec_word(),
            word < 128,
    {
        let ready: u32 = if self.ready {
            64
        } else {
            0
        };
        self.reading as u32 + 4 * (self.published as u32) + 16 * ((self.writable as u32 + 2) % 3)
            + ready
    }

    /// The state that `word` encodes, or `None` when it encodes none: when
    /// a bit above the ready bit is set, a role names no slot, or the write
    /// target coincides with another role.
    pub fn from_word(word: u32) -> (state: Option<BufferState>)
        ensures
            state == Self::spec_from_word(word),
            state.is_some() ==> state.unwrap().wf(),
    {
        if word >= 128 {
            return None;
        }
        let reading: u8 = (word % 4) as u8;
        let published: u8 = ((word / 4) % 4) as u8;
        let target: u32 = (word / 16) % 4;
        let writable: u8 = ((target + 1) % 3) as u8;
        let ready: bool = (word / 64) % 2 == 1;
        if reading < 3 && published < 3 && target < 3 && writable != reading && writable
            != published {
            Some(BufferState { reading, published, writable, ready })
        } else {
            None
        }
    }

    /// Publishing and acquiring keep the roles well formed.
    pub proof fn lemma_roles_stay_well_formed(self)
        requires
            self.wf(),
        ensures
            self.spec_publish().wf(),
            self.spec_acquire().wf(),
            self.spec_publish().reading == self.reading,
            self.spec_acquire().writable == self.writable,
    {
    }

    /// Of the two slots that the reader does not hold, the one that is not
    /// the newest becomes the write target: the previously published slot,
    /// unless the reader holds it.
    pub proof fn lemma_publish_picks_the_stale_slot(self)
        requires
            self.wf(),
        ensures
            self.spec_publish().writable != self.reading,
            self.spec_publish().writable != self.writable,
            self.spec_novel() ==> self.spec_publish().writable == self.published,
            self.spec_publish().spec_novel(),
            !self.spec_acquire().spec_novel(),
    {
    }

    /// A region of zero bytes is a fresh region.
    pub proof fn lemma_zero_word_is_initial()
        ensures
            Self::spec_initial().spec_word() == 0,
            Self::spec_from_word(0) == Some(Self::spec_initial()),
    {
    }

    /// A state survives the trip through its control word.
    pub proof fn lemma_word_round_trip(self)
        requires
            self.wf(),
        ensures
            Self::spec_from_word(self.spec_word()) == Some(self),
    {
    }

    /// A control word that encodes a state is the word of that state.
    pub proof fn lemma_word_is_canonical(word: u32)
        requires
            Self::spec_from_word(word).is_some(),
        ensures
            Self::spec_from_word(word).unwrap().spec_word() == word,
            Self::spec_from_word(word).unwrap().wf(),
    {
    }
}

} // verus!
