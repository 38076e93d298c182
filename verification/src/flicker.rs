//! The flashlight: it dims at random and comes back to full brightness once
//! its timer has run out.

use vstd::prelude::*;
use rand::Rng;
use crate::timer::{EventTimer, TimerModel};

verus! {

/// Brightness of the flashlight while it flickers.
pub const DIMMED: u32 = 50;

/// Brightness of the flashlight otherwise.
pub const FULL: u32 = 200;

/// One tick in this many dims the flashlight.
pub const FLICKER_ODDS: u32 = 50;

/// Time after which a dimmed flashlight is bright again, in nanoseconds.
pub const RECOVERY_NANOS: u64 = 100_000_000;

/// `rand::Rng::gen_range` on `rand::thread_rng()` with the range from zero up
/// to, and without, `bound`. Claimed: the number returned lies in that range;
/// nothing is said of which it is. The method panics on an empty range, so the
/// bound must be above zero.
#[verifier::external_body]
fn random_below(bound: u32) -> (roll: u32)
    requires
        bound > 0,
    ensures
        roll < bound,
{
    rand::thread_rng().gen_range(0..bound)
}

/// A flashlight as plain values.
pub struct FlashlightModel {
    pub timer: TimerModel,
    pub brightness: u32,
}

impl FlashlightModel {
    /// The flashlight after a tick of `delta` nanoseconds in which `roll` was
    /// drawn. The timer is advanced; a roll of zero dims the light and starts
    /// the timer over; a timer that has then run out makes the light bright.
    pub open spec fn flickered(self, delta: nat, roll: u32) -> FlashlightModel {
        let advanced = self.timer.ticked(delta);
        let timer = if roll == 0 {
            advanced.rewound()
        } else {
            advanced
        };
        let brightness = if timer.finished {
            FULL
        } else if roll == 0 {
            DIMMED
        } else {
            self.brightness
        };
        FlashlightModel { timer, brightness }
    }
}

/// The flashlight of the player.
pub struct Flashlight {
    timer: EventTimer,
    brightness: u32,
}

impl Flashlight {
    pub closed spec fn view(&self) -> FlashlightModel {
        FlashlightModel { timer: self.timer@, brightness: self.brightness }
    }

    /// A bright flashlight whose timer has not started.
    pub fn new() -> (light: Flashlight)
        ensures
            light@.brightness == FULL,
            light@.timer == TimerModel::fresh(RECOVERY_NANOS as nat, false),
    {
        Flashlight { timer: EventTimer::new(RECOVERY_NANOS, false), brightness: FULL }
    }

    pub fn brightness(&self) -> (brightness: u32)
        ensures
            brightness == self@.brightness,
    {
        self.brightness
    }

    /// One tick with a given roll.
    pub fn step(&mut self, delta_nanos: u64, roll: u32)
        ensures
            final(self)@ == old(self)@.flickered(delta_nanos as nat, roll),
    {
        self.timer.advance(delta_nanos);
        if roll == 0 {
            self.brightness = DIMMED;
            self.timer.reset();
        }
        if self.timer.finished() {
            self.brightness = FULL;
        }
    }

    /// One tick with a roll drawn at random. Returns the roll.
    pub fn flicker(&mut self, delta_nanos: u64) -> (roll: u32)
        ensures
            roll < FLICKER_ODDS,
            final(self)@ == old(self)@.flickered(delta_nanos as nat, roll),
    {
        let roll = random_below(FLICKER_ODDS);
        self.step(delta_nanos, roll);
        roll
    }
}

/// After a tick the flashlight is dimmed or bright if it was so before, and a
/// roll of zero always leaves it dimmed with its timer started over.
pub proof fn flicker_keeps_two_levels(light: FlashlightModel, delta: nat, roll: u32)
    requires
        light.brightness == DIMMED || light.brightness == FULL,
    ensures
        light.flickered(delta, roll).brightness == DIMMED || light.flickered(
            delta,
            roll,
        ).brightness == FULL,
        roll == 0 ==> light.flickered(delta, roll).brightness == DIMMED && light.flickered(
            delta,
            roll,
        ).timer.elapsed == 0,
{
}

} // verus!
