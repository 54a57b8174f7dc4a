use chessrs::clock::{FrameClock, FALLBACK_DELTA_NS};

#[test]
fn new_clock_has_not_ticked() {
    let clock = FrameClock::new();
    assert_eq!(clock.last, None);
    assert_eq!(clock.delta_ns(), 16_666_667);
    assert_eq!(FALLBACK_DELTA_NS, 16_666_667);
}

#[test]
fn first_tick_reports_the_fallback() {
    for now in [0u64, 1, 123_456_789_000, u64::MAX] {
        let mut clock = FrameClock::new();
        assert_eq!(clock.tick_at(now), FALLBACK_DELTA_NS);
        assert_eq!(clock.last, Some(now));
        assert_eq!(clock.delta_ns(), FALLBACK_DELTA_NS);
    }
}

#[test]
fn later_ticks_report_the_time_since_the_last() {
    let mut clock = FrameClock::new();
    clock.tick_at(1_000);
    assert_eq!(clock.tick_at(1_000), 0);
    assert_eq!(clock.tick_at(251_000_000), 250_999_000);
    assert_eq!(clock.delta_ns(), 250_999_000);
    assert_eq!(clock.tick_at(u64::MAX), u64::MAX - 251_000_000);
    assert_eq!(clock.last, Some(u64::MAX));
}

#[test]
fn a_clock_that_runs_backwards_reports_nothing() {
    let mut clock = FrameClock::new();
    clock.tick_at(5_000);
    assert_eq!(clock.tick_at(4_000), 0);
    assert_eq!(clock.last, Some(4_000));
    assert_eq!(clock.tick_at(4_500), 500);
}

#[test]
fn tick_reads_the_machine_clock() {
    let mut clock = FrameClock::new();
    assert_eq!(clock.tick(), FALLBACK_DELTA_NS);
    let first = clock.last.unwrap();
    let delta = clock.tick();
    let second = clock.last.unwrap();
    assert_eq!(delta, second.saturating_sub(first));
    assert_eq!(clock.delta_ns(), delta);
}
