//! Animation state, frame bounds and the frame timer.
use vstd::prelude::*;
use core::time::Duration;
use bevy::time::Timer as EngineTimer;
use bevy::time::TimerMode;

verus! {

/// Whether the character is standing still or moving.
#[derive(Clone, Copy, Debug, PartialEq, Eq, Structural)]
pub enum State {
    Idle,
    Active,
}

impl Default for State {
    fn default() -> (r: State)
        ensures
            r == State::Idle,
    {
        State::Idle
    }
}

/// Whether the idle character is in its blink cycle.
#[derive(Clone, Copy, Debug, PartialEq, Eq, Structural)]
pub struct Blinking(pub bool);

impl Default for Blinking {
    fn default() -> (r: Blinking)
        ensures
            r == Blinking(false),
    {
        Blinking(false)
    }
}

/// Bounds of a frame range on the sprite sheet; the index runs from `first`
/// up to `last` and then wraps back to `first`.
#[derive(Clone, Copy, Debug, PartialEq, Eq, Structural)]
pub struct Indices {
    pub first: usize,
    pub last: usize,
}

impl Default for Indices {
    fn default() -> (r: Indices)
        ensures
            r == (Indices { first: 0, last: 0 }),
    {
        Indices { first: 0, last: 0 }
    }
}

impl From<usize> for Indices {
    /// The range of the single frame `value`.
    fn from(value: usize) -> (r: Indices)
        ensures
            r == (Indices { first: value, last: value }),
    {
        Indices { first: value, last: value }
    }
}

impl vstd::std_specs::convert::FromSpecImpl<usize> for Indices {
    open spec fn obeys_from_spec() -> bool {
        true
    }

    open spec fn from_spec(v: usize) -> Indices {
        Indices { first: v, last: v }
    }
}

impl From<core::ops::Range<usize>> for Indices {
    /// The range from `start` to `end`, with `end` itself the last frame.
    fn from(value: core::ops::Range<usize>) -> (r: Indices)
        ensures
            r == (Indices { first: value.start, last: value.end }),
    {
        Indices { first: value.start, last: value.end }
    }
}

impl vstd::std_specs::convert::FromSpecImpl<core::ops::Range<usize>> for Indices {
    open spec fn obeys_from_spec() -> bool {
        true
    }

    open spec fn from_spec(v: core::ops::Range<usize>) -> Indices {
        Indices { first: v.start, last: v.end }
    }
}

#[verifier::external_type_specification]
#[verifier::external_body]
pub struct ExBevyTimer(EngineTimer);

/// What `bevy::time::Timer::duration` returns, in nanoseconds.
pub uninterp spec fn timer_nanos(t: EngineTimer) -> nat;

/// What `bevy::time::Timer::elapsed` returns, in nanoseconds.
pub uninterp spec fn timer_elapsed_nanos(t: EngineTimer) -> nat;

/// Whether `bevy::time::Timer::mode` returns `TimerMode::Repeating`.
pub uninterp spec fn timer_repeats(t: EngineTimer) -> bool;

/// What `bevy::time::Timer::paused` returns.
pub uninterp spec fn timer_paused(t: EngineTimer) -> bool;

/// What `bevy::time::Timer::just_finished` returns.
pub uninterp spec fn timer_just_finished(t: EngineTimer) -> bool;

/// Relies on `bevy::time::Timer::new`: it keeps the given duration and mode,
/// and starts with no time elapsed and not paused (the stopwatch's default).
#[verifier::external_body]
fn new_repeating(nanos: u64) -> (r: EngineTimer)
    ensures
        timer_nanos(r) == nanos,
        timer_elapsed_nanos(r) == 0,
        timer_repeats(r),
        !timer_paused(r),
{
    EngineTimer::new(Duration::from_nanos(nanos), TimerMode::Repeating)
}

/// Relies on `bevy::time::Timer::set_duration`, which stores the duration
/// that `duration` hands back and touches nothing else.
#[verifier::external_body]
fn set_duration(t: &mut EngineTimer, nanos: u64)
    ensures
        timer_nanos(*final(t)) == nanos,
        timer_elapsed_nanos(*final(t)) == timer_elapsed_nanos(*old(t)),
        timer_repeats(*final(t)) == timer_repeats(*old(t)),
        timer_paused(*final(t)) == timer_paused(*old(t)),
{
    t.set_duration(Duration::from_nanos(nanos))
}

/// Relies on `bevy::time::Timer::tick` for a running repeating timer: the
/// stopwatch adds `delta` to the elapsed time; once that reaches the
/// duration, the number of periods completed (kept as a `u32`, so modulo
/// 2^32) is what `just_finished` tests, and the elapsed time becomes the
/// remainder. Duration, mode and pause are left alone. With both times
/// within `u64` nanoseconds the sum cannot overflow a `Duration`.
#[verifier::external_body]
fn tick(t: &mut EngineTimer, delta: u64)
    requires
        timer_repeats(*old(t)),
        !timer_paused(*old(t)),
        0 < timer_nanos(*old(t)) <= u64::MAX,
        timer_elapsed_nanos(*old(t)) <= u64::MAX,
    ensures
        timer_nanos(*final(t)) == timer_nanos(*old(t)),
        timer_repeats(*final(t)),
        !timer_paused(*final(t)),
        timer_elapsed_nanos(*final(t)) == (timer_elapsed_nanos(*old(t)) + delta as nat) % timer_nanos(
            *old(t),
        ),
        timer_just_finished(*final(t)) == (((timer_elapsed_nanos(*old(t)) + delta as nat) / timer_nanos(
            *old(t),
        )) % 0x1_0000_0000 != 0),
{
    t.tick(Duration::from_nanos(delta));
}

/// Relies on `bevy::time::Timer::just_finished`.
#[verifier::external_body]
fn just_finished(t: &EngineTimer) -> (r: bool)
    ensures
        r == timer_just_finished(*t),
{
    t.just_finished()
}

/// Repeating countdown that paces the frame changes.
pub struct Timer(pub EngineTimer);

impl Timer {
    /// The period in nanoseconds.
    pub open spec fn nanos(&self) -> nat {
        timer_nanos(self.0)
    }

    /// The time elapsed in the current period, in nanoseconds.
    pub open spec fn elapsed(&self) -> nat {
        timer_elapsed_nanos(self.0)
    }

    /// Whether the timer starts over after each period.
    pub open spec fn repeats(&self) -> bool {
        timer_repeats(self.0)
    }

    /// Whether the timer is stopped.
    pub open spec fn paused(&self) -> bool {
        timer_paused(self.0)
    }

    /// A running repeating timer with a non-zero period, its times in
    /// `u64` nanoseconds.
    pub open spec fn wf(&self) -> bool {
        &&& self.repeats()
        &&& !self.paused()
        &&& 0 < self.nanos() <= u64::MAX
        &&& self.elapsed() <= u64::MAX
    }

    /// Whether advancing by `delta` nanoseconds completes a period: the
    /// periods completed, counted modulo 2^32, are not zero.
    pub open spec fn completes_period(&self, delta: nat) -> bool {
        ((self.elapsed() + delta) / self.nanos()) % 0x1_0000_0000 != 0
    }

    /// A running repeating timer with a period of `nanos` nanoseconds and
    /// no time elapsed.
    pub fn repeating(nanos: u64) -> (r: Timer)
        ensures
            r.nanos() == nanos,
            r.elapsed() == 0,
            r.repeats(),
            !r.paused(),
            nanos > 0 ==> r.wf(),
    {
        Timer(new_repeating(nanos))
    }

    /// Sets the period to `nanos` nanoseconds; elapsed time, mode and pause
    /// stay as they were.
    pub fn set_nanos(&mut self, nanos: u64)
        ensures
            final(self).nanos() == nanos,
            final(self).elapsed() == old(self).elapsed(),
            final(self).repeats() == old(self).repeats(),
            final(self).paused() == old(self).paused(),
            old(self).wf() && nanos > 0 ==> final(self).wf(),
    {
        set_duration(&mut self.0, nanos);
    }

    /// Advances the timer by `delta_nanos` and tells whether that completed
    /// a period; the elapsed time becomes what is left over after the
    /// periods completed, and the period stays as it was.
    pub fn tick(&mut self, delta_nanos: u64) -> (finished: bool)
        requires
            old(self).wf(),
        ensures
            final(self).wf(),
            final(self).nanos() == old(self).nanos(),
            final(self).elapsed() == (old(self).elapsed() + delta_nanos as nat) % old(self).nanos(),
            finished == old(self).completes_period(delta_nanos as nat),
    {
        tick(&mut self.0, delta_nanos);
        proof {
            let (e, n) = (old(self).elapsed() + delta_nanos as nat, old(self).nanos());
            vstd::arithmetic::div_mod::lemma_mod_bound(e as int, n as int);
        }
        just_finished(&self.0)
    }
}

} // verus!
