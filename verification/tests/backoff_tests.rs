use mpris_bridge::backoff::{
    delay, remaining_sleep, validate, Corrections, Timing, DEFAULT_INTERVAL, DEFAULT_MAX_DELAY,
    DEFAULT_MIN_DELAY,
};

#[test]
fn delay_starts_at_minimum() {
    assert_eq!(delay(1_000_000, 4_000_000, 0), 1_000_000);
}

#[test]
fn delay_reaches_maximum_at_sixteen() {
    assert_eq!(delay(1_000_000, 4_000_000, 16), 4_000_000);
    assert_eq!(delay(1_000_000, 4_000_000, 17), 4_000_000);
    assert_eq!(delay(1_000_000, 4_000_000, u32::MAX), 4_000_000);
}

#[test]
fn delay_halfway_is_two_and_a_half_seconds() {
    assert_eq!(delay(1_000_000, 4_000_000, 8), 2_500_000);
}

#[test]
fn delay_single_step() {
    assert_eq!(delay(1_000_000, 4_000_000, 1), 1_187_500);
    assert_eq!(delay(0, 10, 1), 0);
    assert_eq!(delay(0, 10, 15), 9);
}

#[test]
fn delay_is_monotonic_and_bounded() {
    let mut previous = 0u64;
    for tries in 0..40u32 {
        let d = delay(3, 1_000_003, tries);
        assert!(d >= previous);
        assert!((3..=1_000_003).contains(&d));
        previous = d;
    }
}

#[test]
fn delay_with_extreme_range_does_not_overflow() {
    assert_eq!(delay(0, u64::MAX, 16), u64::MAX);
    assert_eq!(delay(0, u64::MAX, 8), u64::MAX / 2);
    assert_eq!(delay(u64::MAX, u64::MAX, 5), u64::MAX);
}

#[test]
fn validate_keeps_a_sound_configuration() {
    let (timing, notes) = validate(1_000_000, 4_000_000, 250_000);
    assert_eq!(timing, Timing { min_delay: 1_000_000, max_delay: 4_000_000, interval: 250_000 });
    assert_eq!(
        notes,
        Corrections { min_reset: false, max_reset: false, interval_reset: false, swapped: false }
    );
}

#[test]
fn validate_swaps_inverted_delays() {
    let (timing, notes) = validate(5_000_000, 2_000_000, 250_000);
    assert_eq!(timing.min_delay, 2_000_000);
    assert_eq!(timing.max_delay, 5_000_000);
    assert!(notes.swapped);
    assert!(!notes.min_reset && !notes.max_reset && !notes.interval_reset);
}

#[test]
fn validate_resets_zero_values_to_defaults() {
    let (timing, notes) = validate(0, 0, 0);
    assert_eq!(timing.min_delay, DEFAULT_MIN_DELAY);
    assert_eq!(timing.max_delay, DEFAULT_MAX_DELAY);
    assert_eq!(timing.interval, DEFAULT_INTERVAL);
    assert!(notes.min_reset && notes.max_reset && notes.interval_reset);
    assert!(!notes.swapped);
    assert_eq!((DEFAULT_MIN_DELAY, DEFAULT_MAX_DELAY, DEFAULT_INTERVAL), (1_000_000, 4_000_000, 250_000));
}

#[test]
fn validate_swaps_after_reset() {
    let (timing, notes) = validate(0, 500_000, 7);
    assert_eq!(timing, Timing { min_delay: 500_000, max_delay: 1_000_000, interval: 7 });
    assert!(notes.min_reset && notes.swapped);
}

#[test]
fn remaining_sleep_never_goes_negative() {
    assert_eq!(remaining_sleep(250_000, 100_000), 150_000);
    assert_eq!(remaining_sleep(250_000, 250_000), 0);
    assert_eq!(remaining_sleep(250_000, 900_000), 0);
}
