use effect_pass::flicker::{Flashlight, DIMMED, FLICKER_ODDS, FULL, RECOVERY_NANOS};
use effect_pass::overlay::{timestamp, PlaySign, Timestamp, BLINK_NANOS};

#[test]
fn timestamp_splits_seconds() {
    assert_eq!(timestamp(0), Timestamp { hours: 0, minutes: 0, seconds: 0 });
    assert_eq!(timestamp(59), Timestamp { hours: 0, minutes: 0, seconds: 59 });
    assert_eq!(timestamp(60), Timestamp { hours: 0, minutes: 1, seconds: 0 });
    assert_eq!(timestamp(3_599), Timestamp { hours: 0, minutes: 59, seconds: 59 });
    assert_eq!(timestamp(3_661), Timestamp { hours: 1, minutes: 1, seconds: 1 });
    assert_eq!(timestamp(u32::MAX), Timestamp { hours: 1_193_046, minutes: 28, seconds: 15 });
}

#[test]
fn play_sign_blinks_every_half_second() {
    let mut sign = PlaySign::new();
    assert!(sign.visible());
    sign.advance(BLINK_NANOS - 1);
    assert!(sign.visible());
    sign.advance(1);
    assert!(!sign.visible());
    sign.advance(BLINK_NANOS / 2);
    assert!(!sign.visible());
    sign.advance(BLINK_NANOS / 2);
    assert!(sign.visible());
    // Several completions in one advance change the sign once.
    sign.advance(3 * BLINK_NANOS);
    assert!(!sign.visible());
}

#[test]
fn flashlight_dims_on_a_zero_roll_and_recovers() {
    let mut light = Flashlight::new();
    assert_eq!(light.brightness(), FULL);
    light.step(16_000_000, 7);
    assert_eq!(light.brightness(), FULL);
    light.step(16_000_000, 0);
    assert_eq!(light.brightness(), DIMMED);
    light.step(RECOVERY_NANOS - 1, 49);
    assert_eq!(light.brightness(), DIMMED);
    light.step(1, 1);
    assert_eq!(light.brightness(), FULL);
    light.step(1_000_000_000, 3);
    assert_eq!(light.brightness(), FULL);
    light.step(0, 0);
    assert_eq!(light.brightness(), DIMMED);
}

#[test]
fn flashlight_with_recovery_time_already_over_dims_anyway() {
    let mut light = Flashlight::new();
    light.step(10 * RECOVERY_NANOS, 0);
    assert_eq!(light.brightness(), DIMMED);
}

#[test]
fn random_flicker_rolls_below_the_odds() {
    let mut light = Flashlight::new();
    let mut twin = Flashlight::new();
    let mut dims = 0;
    for _ in 0..5_000 {
        let roll = light.flicker(1_000_000);
        assert!(roll < FLICKER_ODDS);
        twin.step(1_000_000, roll);
        assert_eq!(light.brightness(), twin.brightness());
        if roll == 0 {
            assert_eq!(light.brightness(), DIMMED);
            dims += 1;
        }
    }
    assert!(dims > 0);
    assert_eq!((DIMMED, FULL, FLICKER_ODDS), (50, 200, 50));
}
