//! The scope of a game session: the simulation holds a session from the
//! moment the game state is entered until it is left, and none otherwise.

use vstd::prelude::*;
use crate::driver::{Session, SessionModel, TickInput};
use crate::extract::{extract_session, frame_uniforms, intensities, RenderViewUniform};
use crate::parameter::EffectConfig;

verus! {

/// The session of a simulation after a tick: ticked if there is one.
pub open spec fn ticked(session: Option<SessionModel>, input: TickInput) -> Option<SessionModel> {
    match session {
        Some(s) => Some(s.ticked(input)),
        None => None,
    }
}

/// The simulation side of the game.
pub struct Simulation {
    session: Option<Session>,
}

impl Simulation {
    pub closed spec fn view(&self) -> Option<SessionModel> {
        match self.session {
            Some(s) => Some(s@),
            None => None,
        }
    }

    /// A simulation outside the game state: no session.
    pub fn new() -> (simulation: Simulation)
        ensures
            simulation@.is_none(),
    {
        Simulation { session: None }
    }

    /// Whether the game state is entered.
    pub fn is_active(&self) -> (active: bool)
        ensures
            active == self@.is_some(),
    {
        self.session.is_some()
    }

    /// The game state is entered: a new session starts, with counter and
    /// intensity at zero. A session that was still there is dropped.
    pub fn enter(&mut self, config: EffectConfig)
        ensures
            final(self)@ == Some(SessionModel::entered(config.scale as nat, config.max as nat)),
    {
        self.session = Some(Session::enter(config));
    }

    /// The game state is left: the session, with its counter, is dropped.
    pub fn exit(&mut self)
        ensures
            final(self)@.is_none(),
    {
        self.session = None;
    }

    /// Adds a timer to the session. Outside the game state nothing happens.
    /// Returns whether there was a session.
    pub fn add_timer(&mut self, duration_nanos: u64, repeating: bool) -> (added: bool)
        ensures
            added == old(self)@.is_some(),
            match old(self)@ {
                Some(s) => final(self)@ == Some(
                    SessionModel {
                        timers: s.timers.push(
                            crate::timer::TimerModel::fresh(duration_nanos as nat, repeating),
                        ),
                        ..s
                    },
                ),
                None => final(self)@.is_none(),
            },
    {
        match &mut self.session {
            Some(session) => {
                session.add_timer(duration_nanos, repeating);
                true
            },
            None => false,
        }
    }

    /// One simulation tick. Outside the game state nothing happens.
    pub fn tick(&mut self, input: TickInput)
        ensures
            final(self)@ == ticked(old(self)@, input),
            final(self)@ matches Some(s) ==> s.wf(),
    {
        match &mut self.session {
            Some(session) => {
                session.tick(input);
            },
            None => {},
        }
    }

    /// The extraction of one frame: the session's parameter, copied for every
    /// active view; nothing where there is no session.
    pub fn extract(&self, views: usize) -> (uniforms: Vec<RenderViewUniform>)
        ensures
            intensities(uniforms@) == frame_uniforms(self@, views as nat),
    {
        extract_session(self.session.as_ref(), views)
    }

    /// The counter of the session, if there is one.
    pub fn count(&self) -> (count: Option<u64>)
        ensures
            match self@ {
                Some(s) => count == Some(s.count as u64) && s.count <= u64::MAX,
                None => count.is_none(),
            },
    {
        match &self.session {
            Some(session) => Some(session.count()),
            None => None,
        }
    }
}

} // verus!
