use effect_pass::driver::{Session, TickInput};
use effect_pass::parameter::{EffectConfig, EffectParameter, InsanityCounter};
use effect_pass::timer::EventTimer;

fn units_to_f32(units: u64) -> f32 {
    units as f32 / effect_pass::parameter::UNITS_PER_ONE as f32
}

#[test]
fn forty_increments_give_intensity_one() {
    let config = EffectConfig::new(25, 10_000);
    let mut session = Session::enter(config);
    for _ in 0..40 {
        session.tick(TickInput { elapsed_nanos: 16_000_000, triggers: 1 });
    }
    assert_eq!(session.count(), 40);
    assert_eq!(session.parameter().intensity(), 1000);
    assert_eq!(units_to_f32(session.parameter().intensity()), 1.0);
}

#[test]
fn five_hundred_increments_clamp_to_ten() {
    let config = EffectConfig::new(25, 10_000);
    let mut session = Session::enter(config);
    for _ in 0..500 {
        session.tick(TickInput { elapsed_nanos: 16_000_000, triggers: 1 });
    }
    assert_eq!(session.count(), 500);
    assert_eq!(session.parameter().intensity(), 10_000);
    assert_eq!(units_to_f32(session.parameter().intensity()), 10.0);
    assert_ne!(session.parameter().intensity(), 12_500);
}

#[test]
fn repeating_timer_wraps_and_reports_completion() {
    let mut timer = EventTimer::new(2_000_000_000, true);
    assert!(!timer.advance(750_000_000));
    assert!(!timer.finished());
    assert!(timer.advance(1_500_000_000));
    assert!(timer.finished());
    assert!(timer.just_finished());
    assert!(!timer.advance(1_000_000_000));
    assert!(!timer.finished());
}

#[test]
fn one_shot_timer_completes_once() {
    let mut timer = EventTimer::new(100_000_000, false);
    assert!(!timer.advance(50_000_000));
    assert!(timer.advance(500_000_000));
    assert!(timer.finished());
    assert!(!timer.advance(1_000_000_000));
    assert!(timer.finished());
    timer.reset();
    assert!(!timer.finished());
    assert!(!timer.just_finished());
}

#[test]
fn timer_completion_counts_as_scare_event() {
    let mut session = Session::enter(EffectConfig::new(25, 10_000));
    session.add_timer(1_000_000_000, true);
    session.tick(TickInput { elapsed_nanos: 400_000_000, triggers: 0 });
    assert_eq!(session.count(), 0);
    assert_eq!(session.parameter().intensity(), 0);
    session.tick(TickInput { elapsed_nanos: 700_000_000, triggers: 0 });
    assert_eq!(session.count(), 1);
    assert_eq!(session.parameter().intensity(), 25);
    session.tick(TickInput { elapsed_nanos: 10_000_000_000, triggers: 2 });
    assert_eq!(session.count(), 4);
    assert_eq!(session.parameter().intensity(), 100);
}

#[test]
fn counter_saturates_and_write_clamps() {
    let mut counter = InsanityCounter::at(u64::MAX);
    counter.increment();
    assert_eq!(counter.value(), u64::MAX);
    let config = EffectConfig::new(u64::MAX, 7);
    let mut parameter = EffectParameter::zero();
    parameter.recompute(&counter, &config);
    assert_eq!(parameter.intensity(), 7);
    parameter.write(3, &config);
    assert_eq!(parameter.intensity(), 3);
    parameter.write(8, &config);
    assert_eq!(parameter.intensity(), 7);
}

#[test]
fn intensity_is_clamped_product_and_never_decreases() {
    let config = EffectConfig::new(25, 10_000);
    let mut parameter = EffectParameter::zero();
    let mut last = 0u64;
    for count in 0..1_000u64 {
        parameter.recompute(&InsanityCounter::at(count), &config);
        let expected = std::cmp::min(count * 25, 10_000);
        assert_eq!(parameter.intensity(), expected);
        assert!(parameter.intensity() >= last);
        assert!(parameter.intensity() <= 10_000);
        last = parameter.intensity();
    }
}

#[test]
fn zero_scale_or_zero_ceiling_gives_zero() {
    let mut parameter = EffectParameter::zero();
    parameter.recompute(&InsanityCounter::at(77), &EffectConfig::new(0, 10_000));
    assert_eq!(parameter.intensity(), 0);
    parameter.recompute(&InsanityCounter::at(77), &EffectConfig::new(25, 0));
    assert_eq!(parameter.intensity(), 0);
}

#[test]
fn product_beyond_sixty_four_bits_clamps() {
    let mut parameter = EffectParameter::zero();
    let config = EffectConfig::new(u64::MAX, u64::MAX);
    parameter.recompute(&InsanityCounter::at(2), &config);
    assert_eq!(parameter.intensity(), u64::MAX);
    parameter.recompute(&InsanityCounter::at(1), &config);
    assert_eq!(parameter.intensity(), u64::MAX);
    parameter.recompute(&InsanityCounter::at(0), &config);
    assert_eq!(parameter.intensity(), 0);
}

#[test]
fn counter_starts_at_zero_and_counts_up() {
    let mut counter = InsanityCounter::new();
    assert_eq!(counter.value(), 0);
    counter.increment();
    counter.increment();
    assert_eq!(counter.value(), 2);
}

#[test]
fn session_counter_saturates() {
    let mut session = Session::enter(EffectConfig::new(1, 5));
    session.tick(TickInput { elapsed_nanos: 0, triggers: u64::MAX });
    assert_eq!(session.count(), u64::MAX);
    session.tick(TickInput { elapsed_nanos: 0, triggers: 3 });
    assert_eq!(session.count(), u64::MAX);
    assert_eq!(session.parameter().intensity(), 5);
}

#[test]
fn tick_without_events_recomputes_the_same_intensity() {
    let mut session = Session::enter(EffectConfig::new(25, 10_000));
    session.tick(TickInput { elapsed_nanos: 1, triggers: 3 });
    assert_eq!(session.parameter().intensity(), 75);
    session.tick(TickInput { elapsed_nanos: 1, triggers: 0 });
    assert_eq!(session.count(), 3);
    assert_eq!(session.parameter().intensity(), 75);
    assert_eq!(session.config(), EffectConfig::new(25, 10_000));
}

#[test]
fn several_timers_each_count_once_per_tick() {
    let mut session = Session::enter(EffectConfig::new(10, 10_000));
    session.add_timer(1_000, true);
    session.add_timer(2_000, false);
    session.add_timer(1_000_000, true);
    // The first timer completes five times over in this tick, and counts once.
    session.tick(TickInput { elapsed_nanos: 5_000, triggers: 0 });
    assert_eq!(session.count(), 2);
    // The one-shot timer has completed and stays silent.
    session.tick(TickInput { elapsed_nanos: 1_000, triggers: 0 });
    assert_eq!(session.count(), 3);
    session.tick(TickInput { elapsed_nanos: 994_000, triggers: 1 });
    assert_eq!(session.count(), 6);
    assert_eq!(session.parameter().intensity(), 60);
}

#[test]
fn zero_duration_repeating_timer_completes_on_every_advance() {
    let mut timer = EventTimer::new(0, true);
    assert!(timer.advance(0));
    assert!(timer.finished());
    assert!(timer.advance(17));
    assert!(timer.just_finished());
}

#[test]
fn zero_duration_one_shot_timer_completes_once() {
    let mut timer = EventTimer::new(0, false);
    assert!(!timer.finished());
    assert!(timer.advance(0));
    assert!(timer.finished());
    assert!(!timer.advance(0));
    assert!(timer.finished());
}

#[test]
fn completion_count_is_kept_in_thirty_two_bits() {
    // 2^32 whole durations go by in one advance: the count of completions
    // wraps to zero, so the advance reports none although the timer finished.
    let mut timer = EventTimer::new(1, true);
    assert!(!timer.advance(1u64 << 32));
    assert!(timer.finished());
    assert!(!timer.just_finished());
    let mut other = EventTimer::new(1, true);
    assert!(other.advance((1u64 << 32) + 1));
}

#[test]
fn timer_accepts_the_longest_times() {
    let mut timer = EventTimer::new(u64::MAX, false);
    assert!(!timer.advance(u64::MAX - 1));
    assert!(timer.advance(u64::MAX));
    assert!(timer.finished());
    let mut repeating = EventTimer::new(u64::MAX, true);
    assert!(!repeating.advance(u64::MAX - 1));
    // Twice the duration less one has gone by: one completion, and one
    // nanosecond short of the next.
    assert!(repeating.advance(u64::MAX));
    assert!(repeating.advance(1));
    assert!(!repeating.advance(1));
}

#[test]
fn reset_starts_a_repeating_timer_over() {
    let mut timer = EventTimer::new(1_000, true);
    assert!(!timer.advance(900));
    timer.reset();
    assert!(!timer.advance(900));
    assert!(timer.advance(100));
}

/// What a timer is expected to hold, tracked beside the real one.
struct Expected {
    elapsed: u128,
    duration: u128,
    repeating: bool,
    finished: bool,
}

impl Expected {
    /// Advances the expectation and returns whether a completion is expected.
    fn advance(&mut self, delta: u64) -> bool {
        if !self.repeating && self.finished {
            return false;
        }
        let total = self.elapsed + delta as u128;
        if total < self.duration {
            self.elapsed = total;
            self.finished = false;
            return false;
        }
        self.finished = true;
        if !self.repeating {
            self.elapsed = self.duration;
            return true;
        }
        if self.duration == 0 {
            self.elapsed = 0;
            return true;
        }
        self.elapsed = total % self.duration;
        (total / self.duration) % (1u128 << 32) > 0
    }
}

#[test]
fn timers_follow_the_stated_steps() {
    let durations = [0u64, 1, 2, 3, 10, 1_000, 500_000_000, u64::MAX / 2, u64::MAX];
    let deltas = [0u64, 1, 2, 3, 7, 999, 1_000, 1_001, 16_666_667, 1 << 32, u64::MAX / 2, u64::MAX];
    let mut seed: u64 = 0x2545_F491_4F6C_DD1D;
    for &duration in &durations {
        for repeating in [false, true] {
            let mut timer = EventTimer::new(duration, repeating);
            let mut expected =
                Expected { elapsed: 0, duration: duration as u128, repeating, finished: false };
            for step in 0..400 {
                seed = seed.wrapping_mul(6364136223846793005).wrapping_add(1442695040888963407);
                let delta = deltas[(seed >> 33) as usize % deltas.len()];
                let completed = timer.advance(delta);
                assert_eq!(completed, expected.advance(delta), "duration {duration}, step {step}");
                assert_eq!(timer.finished(), expected.finished);
                assert_eq!(timer.just_finished(), completed);
                if seed % 17 == 0 {
                    timer.reset();
                    expected.elapsed = 0;
                    expected.finished = false;
                    assert!(!timer.finished());
                    assert!(!timer.just_finished());
                }
            }
        }
    }
}
