use pi_control::gpio_util::PinState;
use pi_control::rain::{is_raining, RainReading};

#[test]
fn low_level_means_rain() {
    assert!(is_raining(PinState::Low));
    assert!(!is_raining(PinState::High));
}

#[test]
fn reading_starts_dry_at_full_scale() {
    let reading = RainReading::new();
    assert!(!reading.last_raining_flag);
    assert_eq!(reading.last_raining_analog_value, 255);
}

#[test]
fn same_sample_is_no_change() {
    let mut reading = RainReading::new();
    assert!(!reading.update(false, 255));
    assert_eq!(reading, RainReading::new());
}

#[test]
fn change_of_flag_or_value_is_reported_once() {
    let mut reading = RainReading::new();
    assert!(reading.update(true, 255));
    assert!(reading.last_raining_flag);
    assert!(!reading.update(true, 255));
    assert!(reading.update(true, 100));
    assert_eq!(reading.last_raining_analog_value, 100);
    assert!(!reading.update(true, 100));
    assert!(reading.update(false, 101));
    assert!(!reading.last_raining_flag);
    assert_eq!(reading.last_raining_analog_value, 101);
}
