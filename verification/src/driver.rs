//! The simulation driver: one game session's counter, timers and effect
//! parameter, advanced tick by tick.

use vstd::prelude::*;
use crate::parameter::{intensity_of, EffectConfig, EffectParameter, InsanityCounter};
use crate::timer::{lemma_ticked_wf, EventTimer, TimerModel};

verus! {

/// A counter value raised by `increments`, held at the largest value the
/// counter can take.
pub open spec fn bumped_by(count: nat, increments: nat) -> nat {
    if count + increments <= u64::MAX {
        count + increments
    } else {
        u64::MAX as nat
    }
}

/// How many of the timers complete when each is handed `delta` nanoseconds.
/// A timer that completes several times over in one advance counts once.
pub open spec fn completions(timers: Seq<TimerModel>, delta: nat) -> nat
    decreases timers.len(),
{
    if timers.len() == 0 {
        0
    } else {
        let rest = completions(timers.drop_last(), delta);
        if timers.last().ticked(delta).just_finished() {
            rest + 1
        } else {
            rest
        }
    }
}

/// Each of the timers after it was handed `delta` nanoseconds.
pub open spec fn all_ticked(timers: Seq<TimerModel>, delta: nat) -> Seq<TimerModel> {
    Seq::new(timers.len(), |i: int| timers[i].ticked(delta))
}

/// What one simulation tick is given: the time that went by since the last
/// tick, in nanoseconds, and the number of discrete trigger events since then.
#[derive(Clone, Copy, Debug, PartialEq, Eq, Structural)]
pub struct TickInput {
    pub elapsed_nanos: u64,
    pub triggers: u64,
}

/// A session as plain values.
pub struct SessionModel {
    pub scale: nat,
    pub max: nat,
    pub count: nat,
    pub intensity: nat,
    pub timers: Seq<TimerModel>,
}

impl SessionModel {
    /// The session at game-state entry.
    pub open spec fn entered(scale: nat, max: nat) -> SessionModel {
        SessionModel { scale, max, count: 0, intensity: 0, timers: Seq::empty() }
    }

    /// By how much one tick raises the counter: once for each timer that
    /// completes, once for each trigger event.
    pub open spec fn increments(self, input: TickInput) -> nat {
        completions(self.timers, input.elapsed_nanos as nat) + input.triggers as nat
    }

    /// The session after one tick: every timer advanced, the counter raised,
    /// the intensity derived anew from the counter.
    pub open spec fn ticked(self, input: TickInput) -> SessionModel {
        let count = bumped_by(self.count, self.increments(input));
        SessionModel {
            count,
            intensity: intensity_of(count, self.scale, self.max),
            timers: all_ticked(self.timers, input.elapsed_nanos as nat),
            ..self
        }
    }

    /// The session after the ticks of a script, first to last.
    pub open spec fn run(self, script: Seq<TickInput>) -> SessionModel
        decreases script.len(),
    {
        if script.len() == 0 {
            self
        } else {
            self.ticked(script.first()).run(script.drop_first())
        }
    }

    /// Whether each tick of the script, run from this session, raises the
    /// counter by exactly one.
    pub open spec fn increments_once_per_tick(self, script: Seq<TickInput>) -> bool
        decreases script.len(),
    {
        script.len() == 0 || (self.increments(script.first()) == 1 && self.ticked(
            script.first(),
        ).increments_once_per_tick(script.drop_first()))
    }

    /// The intensity is the one that belongs to the counter, and every timer is
    /// well formed.
    pub open spec fn wf(self) -> bool {
        &&& self.count <= u64::MAX
        &&& self.intensity == intensity_of(self.count, self.scale, self.max)
        &&& forall|i: int| 0 <= i < self.timers.len() ==> (#[trigger] self.timers[i]).wf()
    }
}

/// The state of one game session: created when the game state is entered,
/// dropped when it is left. The intensity it holds is at every moment the one
/// that belongs to its counter.
pub struct Session {
    config: EffectConfig,
    counter: InsanityCounter,
    parameter: EffectParameter,
    timers: Vec<EventTimer>,
}

impl Session {
    pub closed spec fn view(&self) -> SessionModel {
        SessionModel {
            scale: self.config.scale as nat,
            max: self.config.max as nat,
            count: self.counter@,
            intensity: self.parameter@,
            timers: Seq::new(self.timers@.len(), |i: int| self.timers@[i]@),
        }
    }

    #[verifier::type_invariant]
    spec fn inv(self) -> bool {
        &&& self.counter@ <= u64::MAX
        &&& self.parameter@ == intensity_of(
            self.counter@,
            self.config.scale as nat,
            self.config.max as nat,
        )
        &&& forall|i: int| 0 <= i < self.timers@.len() ==> (#[trigger] self.timers@[i])@.wf()
    }

    /// A session at game-state entry: counter and intensity at zero, no timer.
    pub fn enter(config: EffectConfig) -> (session: Session)
        ensures
            session@ == SessionModel::entered(config.scale as nat, config.max as nat),
            session@.wf(),
    {
        proof {
            assert(0 * (config.scale as nat) == 0) by (nonlinear_arith);
        }
        let session = Session {
            config,
            counter: InsanityCounter::new(),
            parameter: EffectParameter::zero(),
            timers: Vec::new(),
        };
        proof {
            assert(session@.timers =~= Seq::empty());
        }
        session
    }

    /// Adds a timer whose completions count as scare events.
    pub fn add_timer(&mut self, duration_nanos: u64, repeating: bool)
        ensures
            old(self)@.wf(),
            final(self)@.wf(),
            final(self)@ == (SessionModel {
                timers: old(self)@.timers.push(TimerModel::fresh(duration_nanos as nat, repeating)),
                ..old(self)@
            }),
    {
        proof {
            use_type_invariant(&*self);
        }
        let mut timers: Vec<EventTimer> = Vec::new();
        std::mem::swap(&mut self.timers, &mut timers);
        timers.push(EventTimer::new(duration_nanos, repeating));
        std::mem::swap(&mut self.timers, &mut timers);
        proof {
            assert(final(self)@.timers =~= old(self)@.timers.push(
                TimerModel::fresh(duration_nanos as nat, repeating),
            ));
        }
    }

    /// One simulation tick: every timer is advanced by the elapsed time, the
    /// counter is raised by one for each timer that completed and for each
    /// trigger event, and the intensity is derived from the counter, whether or
    /// not the counter has changed. A repeating timer starts over by itself
    /// and keeps the time by which it overshot.
    pub fn tick(&mut self, input: TickInput)
        ensures
            old(self)@.wf(),
            final(self)@.wf(),
            final(self)@ == old(self)@.ticked(input),
    {
        proof {
            use_type_invariant(&*self);
        }
        let delta = input.elapsed_nanos;
        let ghost before = self@.timers;
        let mut timers: Vec<EventTimer> = Vec::new();
        std::mem::swap(&mut self.timers, &mut timers);
        let mut fired: usize = 0;
        let mut i: usize = 0;
        while i < timers.len()
            invariant
                0 <= i <= timers@.len(),
                timers@.len() == before.len(),
                fired <= i,
                fired == completions(before.take(i as int), delta as nat),
                forall|j: int| 0 <= j < i ==> (#[trigger] timers@[j])@ == before[j].ticked(delta as nat),
                forall|j: int| i <= j < before.len() ==> (#[trigger] timers@[j])@ == before[j],
                forall|j: int| 0 <= j < before.len() ==> (#[trigger] timers@[j])@.wf(),
            decreases timers@.len() - i,
        {
            let completed = timers[i].advance(delta);
            proof {
                assert(before.take(i + 1).drop_last() =~= before.take(i as int));
            }
            if completed {
                fired = fired + 1;
            }
            i = i + 1;
        }
        proof {
            assert(before.take(i as int) =~= before);
        }
        let total: u64 = (fired as u64).saturating_add(input.triggers);
        let counter = InsanityCounter::at(self.counter.value().saturating_add(total));
        let mut parameter = EffectParameter::zero();
        parameter.recompute(&counter, &self.config);
        *self = Session { config: self.config, counter, parameter, timers };
        proof {
            assert(final(self)@.timers =~= all_ticked(before, delta as nat));
        }
    }

    /// The current effect parameter, by value. It is never above the ceiling.
    pub fn parameter(&self) -> (parameter: EffectParameter)
        ensures
            parameter@ == self@.intensity,
            parameter@ == intensity_of(self@.count, self@.scale, self@.max),
            parameter@ <= self@.max,
            self@.wf(),
    {
        proof {
            use_type_invariant(self);
        }
        self.parameter
    }

    /// The current counter value.
    pub fn count(&self) -> (count: u64)
        ensures
            count == self@.count,
    {
        self.counter.value()
    }

    pub fn config(&self) -> (config: EffectConfig)
        ensures
            config.scale == self@.scale,
            config.max == self@.max,
    {
        self.config
    }
}

/// A tick keeps a session well formed: whatever the tick was given, the
/// intensity it leaves is the one that belongs to the counter it leaves.
pub proof fn tick_keeps_wf(session: SessionModel, input: TickInput)
    requires
        session.wf(),
    ensures
        session.ticked(input).wf(),
        session.ticked(input).count >= session.count,
        session.ticked(input).intensity >= session.intensity,
{
    let after = session.ticked(input);
    assert forall|i: int| 0 <= i < after.timers.len() implies (#[trigger] after.timers[i]).wf() by {
        lemma_ticked_wf(session.timers[i], input.elapsed_nanos as nat);
    }
    crate::parameter::intensity_is_monotonic(session.count, after.count, session.scale, session.max);
}

/// Any script of ticks keeps a session well formed, and neither the counter nor
/// the intensity ever goes down.
pub proof fn run_keeps_wf(session: SessionModel, script: Seq<TickInput>)
    requires
        session.wf(),
    ensures
        session.run(script).wf(),
        session.run(script).scale == session.scale,
        session.run(script).max == session.max,
        session.run(script).count >= session.count,
        session.run(script).intensity >= session.intensity,
    decreases script.len(),
{
    if script.len() > 0 {
        tick_keeps_wf(session, script.first());
        run_keeps_wf(session.ticked(script.first()), script.drop_first());
    }
}

/// Where each tick of a script raises the counter once, the session after the
/// first `frame` ticks holds the counter raised by exactly `frame`, and the
/// intensity that belongs to that counter: no tick is missing from it and none
/// of the later ticks is in it.
pub proof fn ticks_before_frame_decide_intensity(
    session: SessionModel,
    script: Seq<TickInput>,
    frame: nat,
)
    requires
        session.wf(),
        session.increments_once_per_tick(script),
        frame <= script.len(),
    ensures
        session.run(script.take(frame as int)).count == bumped_by(session.count, frame),
        session.run(script.take(frame as int)).intensity == intensity_of(
            bumped_by(session.count, frame),
            session.scale,
            session.max,
        ),
    decreases frame,
{
    let prefix = script.take(frame as int);
    if frame > 0 {
        let next = session.ticked(script.first());
        tick_keeps_wf(session, script.first());
        assert(prefix.first() == script.first());
        assert(prefix.drop_first() =~= script.drop_first().take(frame - 1));
        ticks_before_frame_decide_intensity(next, script.drop_first(), (frame - 1) as nat);
    }
}

} // verus!
