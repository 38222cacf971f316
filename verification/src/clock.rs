//! The cadence of a pipeline: ticks at a fixed rate, of which a late
//! pipeline skips those it has missed.

use vstd::prelude::*;

verus! {

/// Microseconds between two ticks at 25 frames per second.
pub const TICK_MICROS: u64 = 1_000_000 / 25;

/// A ticker on the grid `start + k * period`.
#[derive(Clone, Copy, Debug, PartialEq, Eq, Structural)]
pub struct PipelineClock {
    /// Microseconds between two ticks; positive.
    pub period: u64,
    /// The time of the next tick, in microseconds.
    pub deadline: u64,
}

/// What the pipeline does on waking.
#[derive(Clone, Copy, Debug, PartialEq, Eq, Structural)]
pub enum Wake {
    /// It is too early: sleep this many microseconds more.
    Sleep(u64),
    /// A tick is due: do the work of one tick. `skipped` further ticks were
    /// missed; their work is not made up for.
    Tick { skipped: u64 },
}

impl PipelineClock {
    /// The period is positive.
    pub open spec fn wf(self) -> bool {
        self.period > 0
    }

    /// The ticks that were missed at `now`, beyond the one that is due.
    pub open spec fn missed(self, now: u64) -> int {
        (now - self.deadline) / (self.period as int)
    }

    /// The first point of the grid after `now`.
    pub open spec fn following(self, now: u64) -> int {
        self.deadline + (self.missed(now) + 1) * self.period
    }

    /// What waking at `now` gives, and the clock afterwards. Before the
    /// deadline nothing changes. From the deadline on one tick is due,
    /// however late it is, and the deadline moves to the first point of the
    /// grid after `now`; a deadline that would not fit stays at the largest
    /// time.
    pub open spec fn spec_wake(self, now: u64) -> (PipelineClock, Wake) {
        if now < self.deadline {
            (self, Wake::Sleep((self.deadline - now) as u64))
        } else {
            (
                PipelineClock {
                    period: self.period,
                    deadline: if self.following(now) <= u64::MAX {
                        self.following(now) as u64
                    } else {
                        u64::MAX
                    },
                },
                Wake::Tick { skipped: self.missed(now) as u64 },
            )
        }
    }

    /// The clock whose first tick is one period after `start`; a period of
    /// zero counts as one microsecond.
    pub fn new(start: u64, period: u64) -> (clock: PipelineClock)
        ensures
            clock.wf(),
            clock.period == if period == 0 {
                1
            } else {
                period
            },
            clock.deadline == if start + clock.period <= u64::MAX {
                (start + clock.period) as u64
            } else {
                u64::MAX
            },
    {
        let period: u64 = if period == 0 {
            1
        } else {
            period
        };
        PipelineClock { period, deadline: start.saturating_add(period) }
    }

    /// Reads the time on waking.
    pub fn wake(&mut self, now: u64) -> (wake: Wake)
        requires
            old(self).wf(),
        ensures
            final(self).wf(),
            (*final(self), wake) == old(self).spec_wake(now),
    {
        if now < self.deadline {
            return Wake::Sleep(self.deadline - now);
        }
        let late: u64 = now - self.deadline;
        let skipped: u64 = late / self.period;
        let within: u64 = late % self.period;
        proof {
            assert(late == skipped * self.period + within) by (nonlinear_arith)
                requires
                    skipped == late / self.period,
                    within == late % self.period,
                    self.period > 0,
            ;
            assert((skipped + 1) * self.period == skipped * self.period + self.period)
                by (nonlinear_arith);
        }
        // The first point of the grid after `now` is `now - within + period`.
        self.deadline = match (now - within).checked_add(self.period) {
            Some(next) => next,
            None => u64::MAX,
        };
        Wake::Tick { skipped }
    }
}

/// A wake does the work of at most one tick; after a tick the deadline
/// lies after `now`, at most one period away, and on the grid; ticks that
/// were missed are skipped, not queued.
pub proof fn lemma_no_backlog(clock: PipelineClock, now: u64)
    requires
        clock.wf(),
        clock.spec_wake(now).1 is Tick,
        clock.following(now) <= u64::MAX,
    ensures
        now < clock.spec_wake(now).0.deadline <= now + clock.period,
        (clock.spec_wake(now).0.deadline - clock.deadline) % (clock.period as int) == 0,
        clock.spec_wake(now).0.spec_wake(now).1 is Sleep,
        clock.spec_wake(now).1->skipped == 0 <==> now < clock.deadline + clock.period,
{
    let late = now - clock.deadline;
    let period = clock.period as int;
    let skipped = late / period;
    assert(late == skipped * period + late % period && 0 <= late % period < period)
        by (nonlinear_arith)
        requires
            skipped == late / period,
            period > 0,
            late >= 0,
    ;
    assert((skipped + 1) * period == skipped * period + period) by (nonlinear_arith);
    assert(((skipped + 1) * period) % period == 0) by (nonlinear_arith)
        requires
            period > 0,
    ;
    assert(skipped == 0 <==> late < period) by (nonlinear_arith)
        requires
            skipped == late / period,
            period > 0,
            late >= 0,
    ;
}

} // verus!
