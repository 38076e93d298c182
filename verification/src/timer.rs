//! Countdown timers of the simulation. The timer itself is `bevy`'s; this
//! module states what its operations do over a plain model of its fields.

use vstd::prelude::*;
use bevy::time::Timer;
use bevy::time::TimerMode;
use std::time::Duration;

verus! {

/// `bevy::time::Timer`, taken as an opaque type: nothing is proved of its
/// fields, and what its methods do to them is stated, not verified.
#[verifier::external_type_specification]
#[verifier::external_body]
pub struct ExTimer(Timer);

/// What a timer holds, as plain values. Times are in nanoseconds.
pub struct TimerModel {
    /// Time counted so far.
    pub elapsed: nat,
    /// Time after which the timer completes.
    pub duration: nat,
    /// Whether the timer starts over when it completes.
    pub repeating: bool,
    /// For a timer that runs once: whether it has completed. For a repeating
    /// timer: whether it completed during the last advance.
    pub finished: bool,
    /// How often the timer completed during the last advance.
    pub times_finished: nat,
    /// Whether the timer ignores time.
    pub paused: bool,
}

/// The fields of a `bevy::time::Timer` as plain values: the elapsed time of
/// its stopwatch and its duration in nanoseconds, whether its mode is
/// `Repeating`, its `finished` flag, its count of completions in the last
/// tick, and whether its stopwatch is paused.
pub uninterp spec fn timer_model(timer: Timer) -> TimerModel;

impl TimerModel {
    /// A timer as it is made: nothing counted, running.
    pub open spec fn fresh(duration: nat, repeating: bool) -> TimerModel {
        TimerModel {
            elapsed: 0,
            duration,
            repeating,
            finished: false,
            times_finished: 0,
            paused: false,
        }
    }

    /// The timer after `delta` nanoseconds have been handed to it.
    ///
    /// A paused timer counts nothing. A timer that runs once and has completed
    /// stays as it is. Otherwise the time is added: under the duration the
    /// timer is not finished; from the duration on a timer that runs once stops
    /// at its duration, and a repeating one keeps the remainder and records how
    /// many whole durations went by (as a 32-bit number).
    pub open spec fn ticked(self, delta: nat) -> TimerModel {
        let total = self.elapsed + delta;
        if self.paused {
            TimerModel { times_finished: 0, finished: self.finished && !self.repeating, ..self }
        } else if !self.repeating && self.finished {
            TimerModel { times_finished: 0, ..self }
        } else if total < self.duration {
            TimerModel { elapsed: total, finished: false, times_finished: 0, ..self }
        } else if !self.repeating {
            TimerModel { elapsed: self.duration, finished: true, times_finished: 1, ..self }
        } else if self.duration == 0 {
            TimerModel { elapsed: 0, finished: true, times_finished: u32::MAX as nat, ..self }
        } else {
            TimerModel {
                elapsed: total % self.duration,
                finished: true,
                times_finished: (total / self.duration) % 0x1_0000_0000,
                ..self
            }
        }
    }

    /// The timer set back to its start. Whether it is paused does not change.
    pub open spec fn rewound(self) -> TimerModel {
        TimerModel { elapsed: 0, finished: false, times_finished: 0, ..self }
    }

    /// Whether the timer completed during the last advance.
    pub open spec fn just_finished(self) -> bool {
        self.times_finished > 0
    }

    /// What every timer of this library satisfies: it runs, and the time it has
    /// counted is within its duration, which fits in 64 bits.
    pub open spec fn wf(self) -> bool {
        &&& !self.paused
        &&& self.elapsed <= self.duration
        &&& self.duration <= u64::MAX
    }
}

/// `Timer::new` with a duration made by `Duration::from_nanos` and the mode
/// `Repeating` for `repeating`, else `Once`. Claimed: the new timer has that
/// duration and mode, has counted nothing, is not finished and not paused.
#[verifier::external_body]
fn timer_new(duration_nanos: u64, repeating: bool) -> (timer: Timer)
    ensures
        timer_model(timer) == TimerModel::fresh(duration_nanos as nat, repeating),
{
    let mode = if repeating { TimerMode::Repeating } else { TimerMode::Once };
    Timer::new(Duration::from_nanos(duration_nanos), mode)
}

/// `Timer::tick` with a delta made by `Duration::from_nanos`. Claimed: the
/// fields change as [`TimerModel::ticked`] says, which follows the method
/// branch by branch, and the call does not panic. The method adds the delta to
/// the elapsed time and panics where the sum is no `Duration`; with elapsed
/// time and duration within 64 bits of nanoseconds the sum always is one, and
/// the remainder that a repeating timer keeps fits in 64 bits.
#[verifier::external_body]
fn timer_tick(timer: &mut Timer, delta_nanos: u64)
    requires
        timer_model(*old(timer)).elapsed <= u64::MAX,
        timer_model(*old(timer)).duration <= u64::MAX,
    ensures
        timer_model(*final(timer)) == timer_model(*old(timer)).ticked(delta_nanos as nat),
    no_unwind
{
    timer.tick(Duration::from_nanos(delta_nanos));
}

/// `Timer::reset`. Claimed: the elapsed time is zero, the timer is not
/// finished and its count of completions is zero; duration, mode and pause
/// are as before; the call does not panic.
#[verifier::external_body]
fn timer_reset(timer: &mut Timer)
    ensures
        timer_model(*final(timer)) == timer_model(*old(timer)).rewound(),
    no_unwind
{
    timer.reset();
}

/// `Timer::finished`. Claimed: it returns the `finished` flag.
#[verifier::external_body]
fn timer_finished(timer: &Timer) -> (finished: bool)
    ensures
        finished == timer_model(*timer).finished,
{
    timer.finished()
}

/// `Timer::just_finished`. Claimed: it returns whether the count of
/// completions of the last tick is above zero.
#[verifier::external_body]
fn timer_just_finished(timer: &Timer) -> (just: bool)
    ensures
        just == timer_model(*timer).just_finished(),
{
    timer.just_finished()
}

/// A timer of the simulation.
pub struct EventTimer {
    timer: Timer,
}

impl EventTimer {
    pub closed spec fn view(&self) -> TimerModel {
        timer_model(self.timer)
    }

    #[verifier::type_invariant]
    spec fn inv(self) -> bool {
        timer_model(self.timer).wf()
    }

    /// A timer of the given duration, in nanoseconds, with nothing counted.
    pub fn new(duration_nanos: u64, repeating: bool) -> (timer: EventTimer)
        ensures
            timer@ == TimerModel::fresh(duration_nanos as nat, repeating),
            timer@.wf(),
    {
        EventTimer { timer: timer_new(duration_nanos, repeating) }
    }

    /// Hands the timer `delta_nanos` nanoseconds and says whether it completed
    /// during this advance.
    pub fn advance(&mut self, delta_nanos: u64) -> (completed: bool)
        ensures
            final(self)@ == old(self)@.ticked(delta_nanos as nat),
            final(self)@.wf(),
            completed == final(self)@.just_finished(),
    {
        proof {
            use_type_invariant(&*self);
            lemma_ticked_wf(self@, delta_nanos as nat);
        }
        timer_tick(&mut self.timer, delta_nanos);
        timer_just_finished(&self.timer)
    }

    /// Sets the timer back to its start.
    pub fn reset(&mut self)
        ensures
            final(self)@ == old(self)@.rewound(),
            final(self)@.wf(),
    {
        proof {
            use_type_invariant(&*self);
        }
        timer_reset(&mut self.timer);
    }

    pub fn finished(&self) -> (finished: bool)
        ensures
            finished == self@.finished,
    {
        timer_finished(&self.timer)
    }

    pub fn just_finished(&self) -> (just: bool)
        ensures
            just == self@.just_finished(),
    {
        timer_just_finished(&self.timer)
    }
}

/// Advancing keeps a timer well formed.
pub proof fn lemma_ticked_wf(timer: TimerModel, delta: nat)
    requires
        timer.wf(),
    ensures
        timer.ticked(delta).wf(),
{
    let total = timer.elapsed + delta;
    if timer.duration > 0 {
        assert(total % timer.duration < timer.duration) by (nonlinear_arith)
            requires
                timer.duration > 0,
                total >= 0,
        ;
    }
}

} // verus!
