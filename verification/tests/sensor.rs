use pi_control::sensor::{SensorPoller, CLEAR_LIMIT, OBSTRUCTION_THRESHOLD, SENSOR_POLL_PERIOD_MS};

/// Feeds the samples to a fresh poller and returns, for each, whether it
/// raised an event.
fn events(samples: &[u8]) -> Vec<bool> {
    let mut poller = SensorPoller::new();
    samples.iter().map(|value| poller.sample(*value)).collect()
}

#[test]
fn poller_constants() {
    assert_eq!(OBSTRUCTION_THRESHOLD, 20);
    assert_eq!(CLEAR_LIMIT, 255);
    assert_eq!(SENSOR_POLL_PERIOD_MS, 50);
}

#[test]
fn poller_starts_clear() {
    assert!(!SensorPoller::new().currently_blocked);
}

#[test]
fn event_at_the_transition_from_5_to_25() {
    assert_eq!(events(&[5, 25]), vec![false, true]);
}

#[test]
fn sample_below_full_scale_rearms_the_poller() {
    // 30 is below full scale, so it clears the latch without an event, and
    // the 25 that follows is a rising edge again.
    assert_eq!(events(&[5, 25, 30, 25, 254]), vec![false, true, false, true, false]);
}

#[test]
fn full_scale_sample_keeps_the_latch() {
    let mut poller = SensorPoller::new();
    assert!(!poller.sample(5));
    assert!(poller.sample(25));
    assert!(poller.currently_blocked);
    assert!(!poller.sample(255));
    assert!(poller.currently_blocked);
    // Still latched: the 25 raises no second event, it only clears the latch.
    assert!(!poller.sample(25));
    assert!(!poller.currently_blocked);
    assert_eq!(events(&[5, 25, 255, 25]), vec![false, true, false, false]);
}

#[test]
fn threshold_is_exclusive() {
    assert_eq!(events(&[20]), vec![false]);
    assert_eq!(events(&[21]), vec![true]);
    assert_eq!(events(&[0]), vec![false]);
}

#[test]
fn full_scale_sample_raises_an_event_when_clear() {
    let mut poller = SensorPoller::new();
    assert!(poller.sample(255));
    assert!(poller.currently_blocked);
}

#[test]
fn poller_is_silent_while_samples_stay_at_full_scale() {
    assert_eq!(events(&[255, 255, 255, 255]), vec![true, false, false, false]);
}

#[test]
fn sample_of_254_clears_the_latch() {
    let mut poller = SensorPoller { currently_blocked: true };
    assert!(!poller.sample(254));
    assert!(!poller.currently_blocked);
}

#[test]
fn low_sample_clears_the_latch() {
    let mut poller = SensorPoller { currently_blocked: true };
    assert!(!poller.sample(5));
    assert!(!poller.currently_blocked);
}

#[test]
fn no_two_events_in_a_row() {
    let pattern: Vec<bool> = events(&[30, 40, 50, 60, 255, 255, 70, 80]);
    assert_eq!(pattern, vec![true, false, true, false, true, false, false, true]);
    for pair in pattern.windows(2) {
        assert!(!(pair[0] && pair[1]));
    }
}
