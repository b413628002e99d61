//! Count-up timers, kept by bevy's `Timer`.
//!
//! This module is the boundary to `bevy::time` and to `core::time::Duration`.
//! What is assumed of them stands at the top; everything below `Countdown` is
//! proved from those assumptions.

use bevy::time::{Timer, TimerMode};
use core::time::Duration;
use vstd::prelude::*;

verus! {

/// `bevy::time::Timer`, carried as an opaque value. Its observable state is
/// named by [`timer_state`].
#[verifier::external_type_specification]
#[verifier::external_body]
pub struct ExTimer(Timer);

/// `bevy::time::TimerMode`. It is declared with its two variants visible,
/// because the library names one of them, `Once`.
#[verifier::external_type_specification]
pub struct ExTimerMode(TimerMode);

/// What a bevy `Timer` holds, as far as this library reads it. Times are in
/// nanoseconds.
pub struct TimerState {
    /// Time counted so far: `Timer::elapsed`.
    pub elapsed: nat,
    /// Time at which the timer finishes: `Timer::duration`.
    pub duration: nat,
    /// `Timer::is_finished`.
    pub finished: bool,
    /// `Timer::is_paused`.
    pub paused: bool,
    /// `Timer::mode`.
    pub mode: TimerMode,
}

/// The length of a `Duration` in nanoseconds: `Duration::as_nanos`.
pub uninterp spec fn duration_nanos(d: Duration) -> nat;

/// The state of a bevy `Timer`: the values that `Timer::elapsed`,
/// `Timer::duration`, `Timer::is_finished`, `Timer::is_paused` and
/// `Timer::mode` report.
pub uninterp spec fn timer_state(t: Timer) -> TimerState;

/// What one `Timer::tick` does to a timer in `TimerMode::Once`: a paused or
/// finished timer stays as it is; a running one counts `delta` up and, on
/// reaching its duration, stops there and is finished.
pub open spec fn ticked_once(s: TimerState, delta: nat) -> TimerState {
    if s.paused || s.finished {
        s
    } else if s.elapsed + delta >= s.duration {
        TimerState { elapsed: s.duration, finished: true, ..s }
    } else {
        TimerState { elapsed: s.elapsed + delta, ..s }
    }
}

/// `Duration::from_millis`: the duration is `millis` milliseconds long.
/// Not proved: taken from the documentation of `core::time::Duration`.
pub assume_specification[ Duration::from_millis ](millis: u64) -> (d: Duration)
    ensures
        duration_nanos(d) == millis * 1_000_000,
;

/// `Timer::new`: the new timer has counted nothing, is neither finished nor
/// paused, and has the duration and mode it was given.
/// Not proved: taken from bevy's source.
pub assume_specification[ Timer::new ](duration: Duration, mode: TimerMode) -> (t: Timer)
    ensures
        timer_state(t) == (TimerState {
            elapsed: 0,
            duration: duration_nanos(duration),
            finished: false,
            paused: false,
            mode,
        }),
;

/// `Timer::is_finished`: reports the timer's finished flag.
/// Not proved: taken from bevy's source.
pub assume_specification[ Timer::is_finished ](t: &Timer) -> (b: bool)
    ensures
        b == timer_state(*t).finished,
;

/// `Timer::tick` on a timer in `TimerMode::Once`: the state afterwards is
/// [`ticked_once`] of the state before. Adding `delta` saturates at the
/// longest `Duration`, which no timer's duration exceeds, so the comparison
/// with the duration is that of the exact sum. On this path bevy's code
/// holds nothing that can panic.
/// Not proved: taken from bevy's source.
#[verifier::external_body]
fn tick_once(timer: &mut Timer, delta: Duration)
    requires
        timer_state(*old(timer)).mode == TimerMode::Once,
    ensures
        timer_state(*final(timer)) == ticked_once(
            timer_state(*old(timer)),
            duration_nanos(delta),
        ),
    no_unwind
{
    timer.tick(delta);
}

/// The mathematical value of a [`Countdown`]. Times are in nanoseconds.
pub struct Clock {
    /// Time counted so far.
    pub elapsed: nat,
    /// The window: the time at which the countdown expires.
    pub window: nat,
    /// Whether the countdown has expired.
    pub expired: bool,
}

impl Clock {
    /// A countdown that has just been armed.
    pub open spec fn armed(window: nat) -> Clock {
        Clock { elapsed: 0, window, expired: false }
    }

    /// A countdown that has run through its window.
    pub open spec fn spent(window: nat) -> Clock {
        Clock { elapsed: window, window, expired: true }
    }

    /// The countdown after `delta` more nanoseconds. An expired countdown
    /// stays as it is.
    pub open spec fn tick(self, delta: nat) -> Clock {
        if self.expired {
            self
        } else if self.elapsed + delta >= self.window {
            Clock::spent(self.window)
        } else {
            Clock { elapsed: self.elapsed + delta, ..self }
        }
    }

    /// The countdown after each of `deltas` in turn.
    pub open spec fn tick_all(self, deltas: Seq<nat>) -> Clock
        decreases deltas.len(),
    {
        if deltas.len() == 0 {
            self
        } else {
            self.tick(deltas[0]).tick_all(deltas.drop_first())
        }
    }
}

/// The sum of a sequence of time steps.
pub open spec fn total(deltas: Seq<nat>) -> nat
    decreases deltas.len(),
{
    if deltas.len() == 0 {
        0
    } else {
        deltas[0] + total(deltas.drop_first())
    }
}

/// A bevy `Timer` that runs once and is never paused.
pub struct Countdown {
    timer: Timer,
}

impl View for Countdown {
    type V = Clock;

    closed spec fn view(&self) -> Clock {
        let s = timer_state(self.timer);
        Clock { elapsed: s.elapsed, window: s.duration, expired: s.finished }
    }
}

impl Countdown {
    #[verifier::type_invariant]
    spec fn runs_once(self) -> bool {
        let s = timer_state(self.timer);
        s.mode == TimerMode::Once && !s.paused
    }

    /// Arms a countdown over `window`.
    pub fn new(window: Duration) -> (c: Countdown)
        ensures
            c@ == Clock::armed(duration_nanos(window)),
    {
        Countdown { timer: Timer::new(window, TimerMode::Once) }
    }

    /// A countdown over `window` that has already run through it.
    pub fn spent(window: Duration) -> (c: Countdown)
        ensures
            c@ == Clock::spent(duration_nanos(window)),
    {
        let mut c = Countdown::new(window);
        c.tick(window);
        c
    }

    /// Counts `delta` up.
    pub fn tick(&mut self, delta: Duration)
        ensures
            final(self)@ == old(self)@.tick(duration_nanos(delta)),
    {
        proof {
            use_type_invariant(&*self);
        }
        tick_once(&mut self.timer, delta);
    }

    /// Whether the countdown has expired.
    pub fn finished(&self) -> (b: bool)
        ensures
            b == self@.expired,
    {
        self.timer.is_finished()
    }

    /// The bevy timer that keeps the count.
    pub fn timer(&self) -> (t: &Timer)
        ensures
            self@ == (Clock {
                elapsed: timer_state(*t).elapsed,
                window: timer_state(*t).duration,
                expired: timer_state(*t).finished,
            }),
    {
        &self.timer
    }
}

/// A countdown does not depend on the tick rate: armed and then ticked
/// through the same total time, in whatever steps, it stands the same.
pub proof fn lemma_countdown_ignores_tick_rate(window: nat, a: Seq<nat>, b: Seq<nat>)
    requires
        a.len() > 0,
        b.len() > 0,
        total(a) == total(b),
    ensures
        Clock::armed(window).tick_all(a) == Clock::armed(window).tick_all(b),
{
    lemma_tick_all_from(Clock::armed(window), a);
    lemma_tick_all_from(Clock::armed(window), b);
}

/// A running countdown has counted exactly the time it was ticked by; it
/// expires once that time, added to what it had counted before, reaches its
/// window.
pub proof fn lemma_tick_all_from(start: Clock, deltas: Seq<nat>)
    requires
        !start.expired,
        deltas.len() > 0,
    ensures
        start.tick_all(deltas) == if start.elapsed + total(deltas) >= start.window {
            Clock::spent(start.window)
        } else {
            Clock { elapsed: start.elapsed + total(deltas), ..start }
        },
    decreases deltas.len(),
{
    let next = start.tick(deltas[0]);
    let rest = deltas.drop_first();
    if rest.len() == 0 {
        assert(total(rest) == 0);
        assert(next.tick_all(rest) == next);
    } else if next.expired {
        lemma_spent_stays(start.window, rest);
    } else {
        lemma_tick_all_from(next, rest);
    }
}

/// An expired countdown stays expired, whatever it is ticked by.
pub proof fn lemma_spent_stays(window: nat, deltas: Seq<nat>)
    ensures
        Clock::spent(window).tick_all(deltas) == Clock::spent(window),
    decreases deltas.len(),
{
    if deltas.len() > 0 {
        lemma_spent_stays(window, deltas.drop_first());
    }
}

} // verus!
