//! The frame clock: the time between one frame and the next, in nanoseconds.

use vstd::prelude::*;

verus! {

/// The time assumed for the frame before the first: a sixtieth of a second.
pub const FALLBACK_DELTA_NS: u64 = 16_666_667;

/// The time that a tick at `now_ns` reports when the tick before it was at
/// `last`: the fallback where there was none, nothing where the clock ran
/// backwards.
pub open spec fn spec_tick(last: Option<u64>, now_ns: u64) -> u64 {
    match last {
        None => FALLBACK_DELTA_NS,
        Some(then) => if now_ns >= then {
            (now_ns - then) as u64
        } else {
            0
        },
    }
}

/// Measures the time from one frame to the next.
#[derive(Clone, Copy, Debug, PartialEq, Eq, Structural)]
pub struct FrameClock {
    /// When the last tick was, if there was one.
    pub last: Option<u64>,
    /// What the last tick reported.
    pub delta_ns: u64,
}

impl FrameClock {
    /// A clock that has not ticked yet.
    pub fn new() -> (clock: FrameClock)
        ensures
            clock.last.is_none(),
            clock.delta_ns == FALLBACK_DELTA_NS,
    {
        FrameClock { last: None, delta_ns: FALLBACK_DELTA_NS }
    }

    /// What the last tick reported; the fallback before the first.
    pub fn delta_ns(&self) -> (delta: u64)
        ensures
            delta == self.delta_ns,
    {
        self.delta_ns
    }

    /// Ticks at the time `now_ns` and reports the time since the last tick.
    /// The first tick reports the fallback.
    pub fn tick_at(&mut self, now_ns: u64) -> (delta: u64)
        ensures
            delta == spec_tick(old(self).last, now_ns),
            final(self).last == Some(now_ns),
            final(self).delta_ns == delta,
    {
        let delta: u64 = match self.last {
            None => FALLBACK_DELTA_NS,
            Some(then) => if now_ns >= then {
                now_ns - then
            } else {
                0
            },
        };
        self.last = Some(now_ns);
        self.delta_ns = delta;
        delta
    }

    /// Ticks at the time that the machine's high-resolution counter shows.
    /// The first tick reports the fallback, whatever the time is.
    pub fn tick(&mut self) -> (delta: u64)
        ensures
            final(self).last.is_some(),
            delta == spec_tick(old(self).last, final(self).last.unwrap()),
            final(self).delta_ns == delta,
            old(self).last.is_none() ==> delta == FALLBACK_DELTA_NS,
    {
        let now_ns: u64 = precise_ns();
        self.tick_at(now_ns)
    }
}

/// Calls `time::precise_time_ns`, which reads a high-resolution counter of
/// the machine. Nothing is claimed of the value.
#[verifier::external_body]
fn precise_ns() -> (now_ns: u64) {
    time::precise_time_ns()
}

} // verus!
