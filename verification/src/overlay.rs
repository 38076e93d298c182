//! The tape overlay: the play sign that blinks, and the running time split
//! into hours, minutes and seconds.

use vstd::prelude::*;
use crate::timer::{EventTimer, TimerModel};

verus! {

/// Time between two changes of the play sign, in nanoseconds.
pub const BLINK_NANOS: u64 = 500_000_000;

/// A running time as the overlay shows it.
#[derive(Clone, Copy, Debug, PartialEq, Eq, Structural)]
pub struct Timestamp {
    pub hours: u32,
    pub minutes: u32,
    pub seconds: u32,
}

/// Splits a number of seconds into whole hours, the minutes of the hour and
/// the seconds of the minute.
pub fn timestamp(elapsed_seconds: u32) -> (stamp: Timestamp)
    ensures
        stamp.hours == elapsed_seconds / 3600,
        stamp.minutes == (elapsed_seconds / 60) % 60,
        stamp.seconds == elapsed_seconds % 60,
        stamp.minutes < 60,
        stamp.seconds < 60,
        stamp.hours * 3600 + stamp.minutes * 60 + stamp.seconds == elapsed_seconds,
{
    Timestamp {
        hours: elapsed_seconds / 3600,
        minutes: elapsed_seconds / 60 % 60,
        seconds: elapsed_seconds % 60,
    }
}

/// A play sign as plain values.
pub struct PlaySignModel {
    pub timer: TimerModel,
    pub visible: bool,
}

impl PlaySignModel {
    /// The sign after `delta` nanoseconds: it changes between shown and hidden
    /// whenever its timer completes during the advance.
    pub open spec fn blinked(self, delta: nat) -> PlaySignModel {
        let timer = self.timer.ticked(delta);
        PlaySignModel { timer, visible: self.visible != timer.just_finished() }
    }
}

/// The play sign of the overlay.
pub struct PlaySign {
    timer: EventTimer,
    visible: bool,
}

impl PlaySign {
    pub closed spec fn view(&self) -> PlaySignModel {
        PlaySignModel { timer: self.timer@, visible: self.visible }
    }

    /// A sign that is shown, with a repeating timer that has not started.
    pub fn new() -> (sign: PlaySign)
        ensures
            sign@.visible,
            sign@.timer == TimerModel::fresh(BLINK_NANOS as nat, true),
    {
        PlaySign { timer: EventTimer::new(BLINK_NANOS, true), visible: true }
    }

    pub fn visible(&self) -> (visible: bool)
        ensures
            visible == self@.visible,
    {
        self.visible
    }

    /// Advances the sign by `delta_nanos` nanoseconds.
    pub fn advance(&mut self, delta_nanos: u64)
        ensures
            final(self)@ == old(self)@.blinked(delta_nanos as nat),
    {
        if self.timer.advance(delta_nanos) {
            self.visible = !self.visible;
        }
    }
}

} // verus!
