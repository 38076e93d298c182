//! The effect parameter store: the insanity counter, the tunables, and the
//! intensity that is derived from them.

use vstd::prelude::*;

verus! {

/// Number of intensity units that make up an intensity of one.
pub const UNITS_PER_ONE: u64 = 1000;

/// The intensity, in units, that belongs to a counter value: the product of
/// counter and scale, cut off at the ceiling. Over the naturals the lower
/// bound of the clamp, zero, needs no case of its own.
pub open spec fn intensity_of(count: nat, scale: nat, max: nat) -> nat {
    if count * scale <= max {
        count * scale
    } else {
        max
    }
}

/// A raw intensity cut off at the ceiling.
pub open spec fn clamped(raw: nat, max: nat) -> nat {
    if raw <= max {
        raw
    } else {
        max
    }
}

/// A counter value one higher, held at the largest value the counter can take.
pub open spec fn bumped(count: nat) -> nat {
    if count < u64::MAX {
        count + 1
    } else {
        count
    }
}

/// The two tunables: intensity units gained per counter increment, and the
/// ceiling of the intensity, in units.
#[derive(Clone, Copy, Debug, PartialEq, Eq, Structural)]
pub struct EffectConfig {
    pub scale: u64,
    pub max: u64,
}

/// Count of the discrete scare events of one game session. It never goes down.
#[derive(Clone, Copy, Debug, PartialEq, Eq, Structural)]
pub struct InsanityCounter {
    count: u64,
}

/// Current strength of the effect, in units. Written only through
/// [`EffectParameter::write`] and [`EffectParameter::recompute`], which keep it
/// at or under the ceiling of the configuration they are given.
#[derive(Clone, Copy, Debug, PartialEq, Eq, Structural)]
pub struct EffectParameter {
    intensity: u64,
}

impl EffectConfig {
    pub fn new(scale: u64, max: u64) -> (config: EffectConfig)
        ensures
            config.scale == scale,
            config.max == max,
    {
        EffectConfig { scale, max }
    }
}

impl InsanityCounter {
    pub closed spec fn view(&self) -> nat {
        self.count as nat
    }

    /// The counter of a session that has just been entered.
    pub fn new() -> (counter: InsanityCounter)
        ensures
            counter@ == 0,
    {
        InsanityCounter { count: 0 }
    }

    /// A counter that stands at `count`.
    pub fn at(count: u64) -> (counter: InsanityCounter)
        ensures
            counter@ == count,
    {
        InsanityCounter { count }
    }

    pub fn value(&self) -> (count: u64)
        ensures
            count == self@,
    {
        self.count
    }

    /// Records one scare event.
    pub fn increment(&mut self)
        ensures
            final(self)@ == bumped(old(self)@),
            final(self)@ >= old(self)@,
    {
        self.count = self.count.saturating_add(1);
    }
}

impl EffectParameter {
    pub closed spec fn view(&self) -> nat {
        self.intensity as nat
    }

    /// The parameter of a session that has just been entered: no effect.
    pub fn zero() -> (parameter: EffectParameter)
        ensures
            parameter@ == 0,
    {
        EffectParameter { intensity: 0 }
    }

    pub fn intensity(&self) -> (units: u64)
        ensures
            units == self@,
    {
        self.intensity
    }

    /// Stores a raw intensity, cut off at the configuration's ceiling.
    pub fn write(&mut self, raw: u64, config: &EffectConfig)
        ensures
            final(self)@ == clamped(raw as nat, config.max as nat),
            final(self)@ <= config.max,
    {
        self.intensity = if raw <= config.max {
            raw
        } else {
            config.max
        };
    }

    /// Derives the intensity from the counter. The stored value is replaced
    /// whether or not the counter has changed since the last call.
    pub fn recompute(&mut self, counter: &InsanityCounter, config: &EffectConfig)
        ensures
            final(self)@ == intensity_of(counter@, config.scale as nat, config.max as nat),
            final(self)@ <= config.max,
    {
        let raw: u64 = match counter.count.checked_mul(config.scale) {
            Some(product) => product,
            None => u64::MAX,
        };
        proof {
            if counter.count * config.scale > u64::MAX {
                assert(counter.count * config.scale > config.max);
            }
        }
        self.write(raw, config);
    }
}

/// The intensity never decreases when the counter increases.
pub proof fn intensity_is_monotonic(lower: nat, higher: nat, scale: nat, max: nat)
    requires
        lower <= higher,
    ensures
        intensity_of(lower, scale, max) <= intensity_of(higher, scale, max),
{
    assert(lower * scale <= higher * scale) by (nonlinear_arith)
        requires
            lower <= higher,
    ;
}

/// The intensity is the clamp of the product of counter and scale: it is never
/// above the ceiling, and equals the product wherever the product is under it.
pub proof fn intensity_is_clamped_product(count: nat, scale: nat, max: nat)
    ensures
        intensity_of(count, scale, max) == clamped(count * scale, max),
        intensity_of(count, scale, max) <= max,
        count * scale <= max ==> intensity_of(count, scale, max) == count * scale,
        intensity_of(0, scale, max) == 0,
{
    assert(0 * scale == 0) by (nonlinear_arith);
}

} // verus!
