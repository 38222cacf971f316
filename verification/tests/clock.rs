use av_pipeline::clock::{PipelineClock, Wake, TICK_MICROS};

#[test]
fn a_tick_every_forty_milliseconds() {
    assert_eq!(TICK_MICROS, 40_000);
    let mut clock = PipelineClock::new(1_000_000, TICK_MICROS);
    assert_eq!(clock, PipelineClock { period: 40_000, deadline: 1_040_000 });
    assert_eq!(clock.wake(1_000_000), Wake::Sleep(40_000));
    assert_eq!(clock.wake(1_039_999), Wake::Sleep(1));
    assert_eq!(clock.wake(1_040_000), Wake::Tick { skipped: 0 });
    assert_eq!(clock.deadline, 1_080_000);
    assert_eq!(clock.wake(1_040_001), Wake::Sleep(39_999));
    assert_eq!(clock.wake(1_085_000), Wake::Tick { skipped: 0 });
    assert_eq!(clock.deadline, 1_120_000);
}

#[test]
fn missed_ticks_are_skipped_not_queued() {
    let mut clock = PipelineClock::new(0, 40_000);
    // Woken after three and a half periods: one tick of work, two skipped.
    assert_eq!(clock.wake(140_000), Wake::Tick { skipped: 2 });
    assert_eq!(clock.deadline, 160_000);
    assert_eq!(clock.wake(140_000), Wake::Sleep(20_000));
    assert_eq!(clock.wake(160_000), Wake::Tick { skipped: 0 });
    assert_eq!(clock.wake(279_999), Wake::Tick { skipped: 1 });
    assert_eq!(clock.deadline, 280_000);
    assert_eq!(clock.wake(280_000), Wake::Tick { skipped: 0 });
    assert_eq!(clock.deadline, 320_000);
}

#[test]
fn the_clock_stops_at_the_end_of_time() {
    let mut clock = PipelineClock::new(u64::MAX - 10, 40);
    assert_eq!(clock.deadline, u64::MAX);
    assert_eq!(clock.wake(u64::MAX - 1), Wake::Sleep(1));
    assert_eq!(clock.wake(u64::MAX), Wake::Tick { skipped: 0 });
    assert_eq!(clock.deadline, u64::MAX);
    let mut clock = PipelineClock::new(u64::MAX - 100, 40);
    assert_eq!(clock.deadline, u64::MAX - 60);
    assert_eq!(clock.wake(u64::MAX - 15), Wake::Tick { skipped: 1 });
    assert_eq!(clock.deadline, u64::MAX);
}

#[test]
fn a_period_of_zero_counts_as_one() {
    let mut clock = PipelineClock::new(5, 0);
    assert_eq!(clock, PipelineClock { period: 1, deadline: 6 });
    assert_eq!(clock.wake(9), Wake::Tick { skipped: 3 });
    assert_eq!(clock.deadline, 10);
}
