//! The frame clock that paces the run loop.

use vstd::prelude::*;

verus! {

/// fps_clock's clock type; the library holds it as an opaque value.
#[verifier::external_type_specification]
#[verifier::external_body]
pub struct ExFpsClock(fps_clock::FpsClock);

/// The target rate, in ticks per second, that a backing clock was built with.
pub uninterp spec fn clock_rate(clock: fps_clock::FpsClock) -> u32;

/// Relies on fps_clock::FpsClock::new: it records the given rate as its
/// target and takes the current instant as the first tick's starting point.
#[verifier::external_body]
fn clock_new(fps: u32) -> (clock: fps_clock::FpsClock)
    ensures
        clock_rate(clock) == fps,
{
    fps_clock::FpsClock::new(fps)
}

/// Relies on fps_clock::FpsClock::tick: it sleeps away whatever is left of
/// the current frame budget (1/rate seconds since the previous tick), starts
/// the next budget, and leaves the target rate unchanged.
#[verifier::external_body]
fn clock_tick(clock: &mut fps_clock::FpsClock)
    ensures
        clock_rate(*final(clock)) == clock_rate(*old(clock)),
{
    clock.tick();
}

/// A frame clock: blocks the single flow of control once per frame so that
/// frames follow each other no faster than a fixed target rate.
///
/// The clock measures elapsed wall-clock time and sleeps only the remaining
/// slack of the current frame; it does not try to compensate for frames that
/// overran their budget.
#[derive(Debug)]
pub struct FrameClock {
    inner: fps_clock::FpsClock,
}

impl FrameClock {
    /// The clock's target rate in frames per second.
    pub closed spec fn rate(self) -> u32 {
        clock_rate(self.inner)
    }

    /// A clock that paces its caller at `fps` frames per second.
    pub fn new(fps: u32) -> (clock: FrameClock)
        requires
            1 <= fps,
        ensures
            clock.rate() == fps,
    {
        FrameClock { inner: clock_new(fps) }
    }

    /// Blocks until at least 1/rate seconds have passed since the previous
    /// tick, or since construction for the first call, then returns.
    pub fn tick(&mut self)
        ensures
            final(self).rate() == old(self).rate(),
    {
        clock_tick(&mut self.inner);
    }
}

} // verus!
